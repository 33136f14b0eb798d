//! The schema of the tool's structured result, read from a JSON document.

use vstd::prelude::*;
use vstd::string::StringExecFns;
use crate::json::{lemma_find_after_remove, Json, JsonView};
use crate::record::{SpeedTestResult, SpeedTestResultView};
use crate::units::Milliseconds;

verus! {

/// The members that the top level of the tool's result must have.
#[derive(Debug, Clone, Copy, PartialEq, Eq)]
pub enum Field {
    Download,
    Upload,
    Ping,
    Isp,
    Server,
}

impl Field {
    /// The name of the member in the document.
    pub open spec fn key(self) -> Seq<char> {
        match self {
            Field::Download => "download"@,
            Field::Upload => "upload"@,
            Field::Ping => "ping"@,
            Field::Isp => "isp"@,
            Field::Server => "server"@,
        }
    }

    /// The name of the member in the document.
    pub fn name(self) -> (r: &'static str)
        ensures
            r@ == self.key(),
    {
        match self {
            Field::Download => "download",
            Field::Upload => "upload",
            Field::Ping => "ping",
            Field::Isp => "isp",
            Field::Server => "server",
        }
    }
}

/// Why a JSON document is not a result of the tool.
#[derive(Debug, Clone, Copy, PartialEq, Eq)]
pub enum SchemaError {
    /// The document is not a JSON object.
    NotAnObject,
    /// The object has no member of that name.
    Missing(Field),
    /// The member is there but does not hold what the schema asks for.
    Invalid(Field),
}

impl SchemaError {
    /// The diagnostic text of the fault.
    pub open spec fn message(self) -> Seq<char> {
        match self {
            SchemaError::NotAnObject => "expected a JSON object"@,
            SchemaError::Missing(field) => "missing field `"@ + field.key() + "`"@,
            SchemaError::Invalid(field) => "invalid value for field `"@ + field.key() + "`"@,
        }
    }

    /// The diagnostic text of the fault.
    pub fn to_message(&self) -> (r: String)
        ensures
            r@ == self.message(),
    {
        match self {
            SchemaError::NotAnObject => String::from_str("expected a JSON object"),
            SchemaError::Missing(field) => {
                let mut text = String::from_str("missing field `");
                text.append(field.name());
                text.append("`");
                text
            },
            SchemaError::Invalid(field) => {
                let mut text = String::from_str("invalid value for field `");
                text.append(field.name());
                text.append("`");
                text
            },
        }
    }
}

/// The bandwidth, in bytes per second, under `field`: an unsigned integer called
/// `bandwidth` inside the object that `field` names.
pub open spec fn bandwidth_of(doc: JsonView, field: Field) -> Result<u64, SchemaError> {
    match doc.member(field.key()) {
        None => Err(SchemaError::Missing(field)),
        Some(section) => match section.member("bandwidth"@) {
            None => Err(SchemaError::Invalid(field)),
            Some(value) => match value.as_u64() {
                None => Err(SchemaError::Invalid(field)),
                Some(bandwidth) => Ok(bandwidth),
            },
        },
    }
}

/// The ping latency: a number called `latency` inside the object called `ping`.
pub open spec fn latency_of(doc: JsonView) -> Result<Milliseconds, SchemaError> {
    match doc.member(Field::Ping.key()) {
        None => Err(SchemaError::Missing(Field::Ping)),
        Some(section) => match section.member("latency"@) {
            None => Err(SchemaError::Invalid(Field::Ping)),
            Some(value) => match value.as_float_bits() {
                None => Err(SchemaError::Invalid(Field::Ping)),
                Some(bits) => Ok(Milliseconds { bits }),
            },
        },
    }
}

/// The provider's name: a string called `isp`.
pub open spec fn isp_of(doc: JsonView) -> Result<Seq<char>, SchemaError> {
    match doc.member(Field::Isp.key()) {
        None => Err(SchemaError::Missing(Field::Isp)),
        Some(value) => match value.as_text() {
            None => Err(SchemaError::Invalid(Field::Isp)),
            Some(text) => Ok(text),
        },
    }
}

/// The server's name: a string called `name` inside the object called `server`.
pub open spec fn server_name_of(doc: JsonView) -> Result<Seq<char>, SchemaError> {
    match doc.member(Field::Server.key()) {
        None => Err(SchemaError::Missing(Field::Server)),
        Some(section) => match section.member("name"@) {
            None => Err(SchemaError::Invalid(Field::Server)),
            Some(value) => match value.as_text() {
                None => Err(SchemaError::Invalid(Field::Server)),
                Some(text) => Ok(text),
            },
        },
    }
}

/// The tool's result that a document holds, or the first fault found. The
/// members are looked at in the order download, upload, ping, isp, server;
/// members of other names are not looked at.
pub open spec fn decoded(doc: JsonView) -> Result<SpeedTestResultView, SchemaError> {
    if !(doc is Object) {
        Err(SchemaError::NotAnObject)
    } else if bandwidth_of(doc, Field::Download) is Err {
        Err(bandwidth_of(doc, Field::Download)->Err_0)
    } else if bandwidth_of(doc, Field::Upload) is Err {
        Err(bandwidth_of(doc, Field::Upload)->Err_0)
    } else if latency_of(doc) is Err {
        Err(latency_of(doc)->Err_0)
    } else if isp_of(doc) is Err {
        Err(isp_of(doc)->Err_0)
    } else if server_name_of(doc) is Err {
        Err(server_name_of(doc)->Err_0)
    } else {
        Ok(
            SpeedTestResultView {
                download_bandwidth: bandwidth_of(doc, Field::Download)->Ok_0,
                upload_bandwidth: bandwidth_of(doc, Field::Upload)->Ok_0,
                ping_latency: latency_of(doc)->Ok_0,
                isp: isp_of(doc)->Ok_0,
                server_name: server_name_of(doc)->Ok_0,
            },
        )
    }
}

/// Reads the bandwidth under `field`.
fn read_bandwidth(doc: &Json, field: Field) -> (r: Result<u64, SchemaError>)
    ensures
        r == bandwidth_of(doc@, field),
{
    match doc.get(field.name()) {
        None => Err(SchemaError::Missing(field)),
        Some(section) => match section.get("bandwidth") {
            None => Err(SchemaError::Invalid(field)),
            Some(value) => match value.as_u64() {
                None => Err(SchemaError::Invalid(field)),
                Some(bandwidth) => Ok(bandwidth),
            },
        },
    }
}

/// Reads the ping latency.
fn read_latency(doc: &Json) -> (r: Result<Milliseconds, SchemaError>)
    ensures
        r == latency_of(doc@),
{
    match doc.get(Field::Ping.name()) {
        None => Err(SchemaError::Missing(Field::Ping)),
        Some(section) => match section.get("latency") {
            None => Err(SchemaError::Invalid(Field::Ping)),
            Some(value) => match value.as_float_bits() {
                None => Err(SchemaError::Invalid(Field::Ping)),
                Some(bits) => Ok(Milliseconds { bits }),
            },
        },
    }
}

/// Reads the provider's name.
fn read_isp(doc: &Json) -> (r: Result<String, SchemaError>)
    ensures
        match r {
            Ok(text) => isp_of(doc@) == Ok::<Seq<char>, SchemaError>(text@),
            Err(fault) => isp_of(doc@) == Err::<Seq<char>, SchemaError>(fault),
        },
{
    match doc.get(Field::Isp.name()) {
        None => Err(SchemaError::Missing(Field::Isp)),
        Some(value) => match value.as_text() {
            None => Err(SchemaError::Invalid(Field::Isp)),
            Some(text) => Ok(text.to_owned()),
        },
    }
}

/// Reads the server's name.
fn read_server_name(doc: &Json) -> (r: Result<String, SchemaError>)
    ensures
        match r {
            Ok(text) => server_name_of(doc@) == Ok::<Seq<char>, SchemaError>(text@),
            Err(fault) => server_name_of(doc@) == Err::<Seq<char>, SchemaError>(fault),
        },
{
    match doc.get(Field::Server.name()) {
        None => Err(SchemaError::Missing(Field::Server)),
        Some(section) => match section.get("name") {
            None => Err(SchemaError::Invalid(Field::Server)),
            Some(value) => match value.as_text() {
                None => Err(SchemaError::Invalid(Field::Server)),
                Some(text) => Ok(text.to_owned()),
            },
        },
    }
}

/// The model of what reading a document gives.
pub open spec fn decoding_view(decoding: Result<SpeedTestResult, SchemaError>) -> Result<
    SpeedTestResultView,
    SchemaError,
> {
    match decoding {
        Ok(result) => Ok(result@),
        Err(fault) => Err(fault),
    }
}

impl SpeedTestResult {
    /// Reads the tool's result out of a parsed document. Either all five values
    /// are there and well-formed, or the first fault is reported and no result is made.
    pub fn from_json(doc: &Json) -> (r: Result<SpeedTestResult, SchemaError>)
        ensures
            decoding_view(r) == decoded(doc@),
    {
        match doc {
            Json::Object(_) => {},
            _ => {
                return Err(SchemaError::NotAnObject);
            },
        }
        let download_bandwidth: u64 = match read_bandwidth(doc, Field::Download) {
            Ok(bandwidth) => bandwidth,
            Err(fault) => {
                return Err(fault);
            },
        };
        let upload_bandwidth: u64 = match read_bandwidth(doc, Field::Upload) {
            Ok(bandwidth) => bandwidth,
            Err(fault) => {
                return Err(fault);
            },
        };
        let ping_latency = match read_latency(doc) {
            Ok(latency) => latency,
            Err(fault) => {
                return Err(fault);
            },
        };
        let isp = match read_isp(doc) {
            Ok(text) => text,
            Err(fault) => {
                return Err(fault);
            },
        };
        let server_name = match read_server_name(doc) {
            Ok(text) => text,
            Err(fault) => {
                return Err(fault);
            },
        };
        Ok(SpeedTestResult { download_bandwidth, upload_bandwidth, ping_latency, isp, server_name })
    }
}

/// The five required members have five different names.
pub proof fn lemma_keys_differ(a: Field, b: Field)
    ensures
        a.key() == b.key() <==> a == b,
{
    reveal_strlit("download");
    reveal_strlit("upload");
    reveal_strlit("ping");
    reveal_strlit("isp");
    reveal_strlit("server");
    if a != b && a.key() == b.key() {
        assert(a.key().len() == b.key().len());
        assert(a.key()[0] == b.key()[0]);
    }
}

/// A document that lacks one of the five required members holds no result.
pub proof fn lemma_missing_member_is_rejected(doc: JsonView, field: Field)
    requires
        doc.member(field.key()) is None,
    ensures
        decoded(doc) is Err,
{
}

/// Taking any one of the five required members out of a document that holds
/// a result leaves a document that is rejected for the lack of that member.
pub proof fn lemma_removed_member_is_missing(doc: JsonView, field: Field)
    requires
        decoded(doc) is Ok,
    ensures
        decoded(doc.without(field.key())) == Err::<SpeedTestResultView, SchemaError>(
            SchemaError::Missing(field),
        ),
{
    let members = doc->Object_0;
    let removed = field.key();
    let rest = doc.without(removed);
    lemma_find_after_remove(members, removed, Field::Download.key());
    lemma_find_after_remove(members, removed, Field::Upload.key());
    lemma_find_after_remove(members, removed, Field::Ping.key());
    lemma_find_after_remove(members, removed, Field::Isp.key());
    lemma_find_after_remove(members, removed, Field::Server.key());
    lemma_keys_differ(field, Field::Download);
    lemma_keys_differ(field, Field::Upload);
    lemma_keys_differ(field, Field::Ping);
    lemma_keys_differ(field, Field::Isp);
    lemma_keys_differ(field, Field::Server);
    assert(bandwidth_of(rest, Field::Download) == if field == Field::Download {
        Err(SchemaError::Missing(field))
    } else {
        bandwidth_of(doc, Field::Download)
    });
    assert(bandwidth_of(rest, Field::Upload) == if field == Field::Upload {
        Err(SchemaError::Missing(field))
    } else {
        bandwidth_of(doc, Field::Upload)
    });
    assert(latency_of(rest) == if field == Field::Ping {
        Err(SchemaError::Missing(field))
    } else {
        latency_of(doc)
    });
    assert(isp_of(rest) == if field == Field::Isp {
        Err(SchemaError::Missing(field))
    } else {
        isp_of(doc)
    });
    assert(server_name_of(rest) == if field == Field::Server {
        Err(SchemaError::Missing(field))
    } else {
        server_name_of(doc)
    });
}

/// Members of other names are not looked at: two objects whose required
/// members are the same hold the same result, or fail with the same fault.
pub proof fn lemma_other_members_are_ignored(a: JsonView, b: JsonView)
    requires
        a is Object,
        b is Object,
        forall|field: Field| a.member(#[trigger] field.key()) == b.member(field.key()),
    ensures
        decoded(a) == decoded(b),
{
    assert(a.member(Field::Download.key()) == b.member(Field::Download.key()));
    assert(a.member(Field::Upload.key()) == b.member(Field::Upload.key()));
    assert(a.member(Field::Ping.key()) == b.member(Field::Ping.key()));
    assert(a.member(Field::Isp.key()) == b.member(Field::Isp.key()));
    assert(a.member(Field::Server.key()) == b.member(Field::Server.key()));
}

} // verus!
