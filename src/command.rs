//! The query and the command line that asks the report tool about it.
use crate::text::{chars_of, string_of};
use vstd::prelude::*;

verus! {

/// Where and when to ask for sunrise and sunset.
pub struct Query {
    /// Calendar date, such as `2022-01-24`.
    pub date: String,
    /// Decimal degrees with a hemisphere suffix, such as `40.7128N`.
    pub latitude: String,
    /// Decimal degrees with a hemisphere suffix, such as `74.0060W`.
    pub longitude: String,
    /// UTC offset, such as `-05:00`.
    pub timezone: String,
}

/// The values that stand in for the parts of a query that were not given.
pub struct Defaults {
    pub date: String,
    pub latitude: String,
    pub longitude: String,
    pub timezone: String,
}

/// The name under which the report tool is looked up on the search path.
pub open spec fn tool_name() -> Seq<char> {
    "heliocron"@
}

/// The arguments handed to the report tool, in the order it expects.
pub open spec fn report_args(
    date: Seq<char>,
    latitude: Seq<char>,
    longitude: Seq<char>,
    timezone: Seq<char>,
) -> Seq<Seq<char>> {
    seq![
        "--date"@,
        date,
        "--latitude"@,
        latitude,
        "--longitude"@,
        longitude,
        "--time-zone"@,
        timezone,
        "report"@,
    ]
}

/// Each word preceded by one space.
pub open spec fn spaced_words(words: Seq<Seq<char>>) -> Seq<char>
    decreases words.len(),
{
    if words.len() == 0 {
        seq![]
    } else {
        spaced_words(words.drop_last()) + seq![' '] + words.last()
    }
}

/// `Some(v)` gives `v`, `None` gives `d`.
pub open spec fn given_or(o: Option<String>, d: String) -> Seq<char> {
    match o {
        Some(v) => v@,
        None => d@,
    }
}

/// The name of the report tool, for looking it up on the search path.
pub fn program() -> (r: String)
    ensures
        r@ == tool_name(),
{
    "heliocron".to_owned()
}

impl Defaults {
    /// New York City on 2022-01-24, at UTC-05:00.
    pub fn standard() -> (r: Defaults)
        ensures
            r.date@ == "2022-01-24"@,
            r.latitude@ == "40.7128N"@,
            r.longitude@ == "74.0060W"@,
            r.timezone@ == "-05:00"@,
    {
        Defaults {
            date: "2022-01-24".to_owned(),
            latitude: "40.7128N".to_owned(),
            longitude: "74.0060W".to_owned(),
            timezone: "-05:00".to_owned(),
        }
    }
}

fn given_or_default(o: Option<String>, d: &String) -> (r: String)
    ensures
        r@ == given_or(o, *d),
{
    match o {
        Some(v) => v,
        None => d.clone(),
    }
}

impl Query {
    /// The query made of the given parts, each missing one taken from
    /// `defaults`.
    pub fn resolve(
        date: Option<String>,
        latitude: Option<String>,
        longitude: Option<String>,
        timezone: Option<String>,
        defaults: &Defaults,
    ) -> (r: Query)
        ensures
            r.date@ == given_or(date, defaults.date),
            r.latitude@ == given_or(latitude, defaults.latitude),
            r.longitude@ == given_or(longitude, defaults.longitude),
            r.timezone@ == given_or(timezone, defaults.timezone),
    {
        Query {
            date: given_or_default(date, &defaults.date),
            latitude: given_or_default(latitude, &defaults.latitude),
            longitude: given_or_default(longitude, &defaults.longitude),
            timezone: given_or_default(timezone, &defaults.timezone),
        }
    }

    /// The arguments for the report tool:
    /// `--date D --latitude LAT --longitude LON --time-zone TZ report`.
    pub fn args(&self) -> (r: Vec<String>)
        ensures
            r@.map_values(|a: String| a@) == report_args(
                self.date@,
                self.latitude@,
                self.longitude@,
                self.timezone@,
            ),
    {
        let r = vec![
            "--date".to_owned(),
            self.date.clone(),
            "--latitude".to_owned(),
            self.latitude.clone(),
            "--longitude".to_owned(),
            self.longitude.clone(),
            "--time-zone".to_owned(),
            self.timezone.clone(),
            "report".to_owned(),
        ];
        assert(r@.map_values(|a: String| a@) == report_args(
            self.date@,
            self.latitude@,
            self.longitude@,
            self.timezone@,
        ));
        r
    }

    /// The command line as one text, for echoing: the tool's name followed by
    /// each argument, separated by single spaces.
    pub fn command_line(&self) -> (r: String)
        ensures
            r@ == tool_name() + spaced_words(
                report_args(self.date@, self.latitude@, self.longitude@, self.timezone@),
            ),
    {
        let args = self.args();
        let ghost words = args@.map_values(|a: String| a@);
        let name = program();
        let mut line = chars_of(name.as_str());
        let mut i: usize = 0;
        while i < args.len()
            invariant
                i <= args.len(),
                words == args@.map_values(|a: String| a@),
                line@ == tool_name() + spaced_words(words.take(i as int)),
            decreases args.len() - i,
        {
            line.push(' ');
            let mut more = chars_of(args[i].as_str());
            line.append(&mut more);
            i += 1;
            assert(words.take(i as int).drop_last() == words.take(i - 1));
        }
        assert(words.take(args.len() as int) == words);
        string_of(&line)
    }
}

} // verus!
