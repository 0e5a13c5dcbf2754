//! Parameters, and where the service is reached.

use vstd::prelude::*;

use vstd::std_specs::convert::FromSpecImpl;

use crate::error::Error;
use crate::json::json_read;
use crate::json::json_string_member;
use crate::json::read_json;
use crate::json::string_member;
use crate::language::listed_codes;
use crate::language::Languages;
use crate::text::concat2;

verus! {

/// The parameters of the service.
pub struct Params {
    pub region: Region,
    pub transcribe: TranscribeParams,
}

/// The parameters of the recognition.
pub struct TranscribeParams {
    /// The recognition model.
    pub model: String,
    /// One or more BCP 47 codes, separated by commas.
    pub language: String,
    /// Whether speakers are told apart.
    pub diarization: bool,
    /// Whether spoken numbers are to be written in digits.
    pub numerals: bool,
}

impl TranscribeParams {
    /// The languages to expect.
    pub fn languages(&self) -> (r: Result<Languages, Error>)
        ensures
            r is Ok <==> listed_codes(self.language@).len() > 0,
            r matches Ok(languages) ==> languages@ == listed_codes(self.language@),
            r matches Err(e) ==> e@ == seq!["language must contain at least one locale code"@],
    {
        Languages::required_from_csv(self.language.as_str())
    }
}

/// Where the service runs.
#[derive(Debug, Clone, Copy, PartialEq, Eq, Structural)]
pub enum Region {
    Global,
    Eu,
    Us,
}

impl Default for Region {
    fn default() -> (r: Region)
        ensures
            r == Region::Global,
    {
        Region::Global
    }
}

/// How the service is reached in a region.
pub struct Config {
    pub endpoint: &'static str,
    pub location: &'static str,
}

/// How the service is reached in a region.
pub open spec fn config_for(region: Region) -> Config {
    match region {
        Region::Global => Config { endpoint: "https://speech.googleapis.com", location: "global" },
        Region::Eu => Config { endpoint: "https://eu-speech.googleapis.com", location: "eu" },
        Region::Us => Config { endpoint: "https://us-speech.googleapis.com", location: "us" },
    }
}

impl FromSpecImpl<Region> for Config {
    open spec fn obeys_from_spec() -> bool {
        true
    }

    open spec fn from_spec(value: Region) -> Config {
        config_for(value)
    }
}

impl From<Region> for Config {
    fn from(value: Region) -> (r: Config) {
        match value {
            Region::Global => Config {
                endpoint: "https://speech.googleapis.com",
                location: "global",
            },
            Region::Eu => Config { endpoint: "https://eu-speech.googleapis.com", location: "eu" },
            Region::Us => Config { endpoint: "https://us-speech.googleapis.com", location: "us" },
        }
    }
}

impl Default for Config {
    fn default() -> (r: Config)
        ensures
            r == (Config { endpoint: "", location: "" }),
    {
        Config { endpoint: "", location: "" }
    }
}

/// The project that credentials in JSON text belong to, or why it cannot be told. `path` is where
/// the credentials were found.
pub open spec fn project_in(path: Seq<char>, credentials: Seq<char>) -> Result<
    Seq<char>,
    Seq<Seq<char>>,
> {
    match json_read(credentials) {
        Err(cause) => Err(
            seq!["GOOGLE_APPLICATION_CREDENTIALS does not contain valid JSON: "@ + path, cause],
        ),
        Ok(value) => match json_string_member(value, "project_id"@) {
            Some(project) => Ok(project),
            None => Err(seq!["project_id missing in GOOGLE_APPLICATION_CREDENTIALS JSON"@]),
        },
    }
}

/// The project that credentials belong to, given what was read from them: a project or none, or why
/// nothing was read. `path` is where they were found.
pub fn project_or_error(path: &str, read: Result<Option<String>, String>) -> (r: Result<
    String,
    Error,
>)
    ensures
        r matches Ok(id) ==> read == Ok::<Option<String>, String>(Some(id)),
        r is Ok <==> read matches Ok(Some(_)),
        r matches Err(e) ==> e@ == match read {
            Ok(_) => seq!["project_id missing in GOOGLE_APPLICATION_CREDENTIALS JSON"@],
            Err(cause) => seq![
                "GOOGLE_APPLICATION_CREDENTIALS does not contain valid JSON: "@ + path@,
                cause@,
            ],
        },
{
    match read {
        Ok(Some(id)) => Ok(id),
        Ok(None) => Err(
            Error::new("project_id missing in GOOGLE_APPLICATION_CREDENTIALS JSON"),
        ),
        Err(cause) => {
            let outer = concat2(
                "GOOGLE_APPLICATION_CREDENTIALS does not contain valid JSON: ",
                path,
            );
            let error = Error::from_text(cause).context(outer.as_str());
            assert(error@ =~= seq![outer@, cause@]);
            Err(error)
        },
    }
}

/// The project that credentials in JSON text belong to.
pub fn project_id(path: &str, credentials: &str) -> (r: Result<String, Error>)
    ensures
        ({
            let project = project_in(path@, credentials@);
            &&& r is Ok <==> project is Ok
            &&& r matches Ok(id) ==> project->Ok_0 == id@
            &&& r matches Err(e) ==> project->Err_0 == e@
        }),
{
    match read_json(credentials) {
        Ok(value) => project_or_error(path, Ok(string_member(&value, "project_id"))),
        Err(cause) => project_or_error(path, Err(cause)),
    }
}

/// The value of the header that authorizes requests.
pub fn bearer(token: &str) -> (r: String)
    ensures
        r@ == "Bearer "@ + token@,
{
    concat2("Bearer ", token)
}

} // verus!
