use vstd::prelude::*;

verus! {

use vstd::string::*;
use crate::errors::FlowError;
use crate::json::{json_wellformed, hashes_of, parse_json, pretty_of, to_pretty, extract_hashes};

/// The name of the directory that holds the output file.
pub open spec fn output_dir_spec() -> Seq<char> {
    "data"@
}

/// The path of the output file for an address: a JSON file named after the
/// address inside the output directory. The path depends on the address
/// alone, so a second run with the same address writes to the same file.
pub open spec fn output_file_path_spec(address: Seq<char>) -> Seq<char> {
    "data/"@ + address + ".json"@
}

/// The console notice printed after the response has been persisted.
pub open spec fn saved_notice_spec(path: Seq<char>) -> Seq<char> {
    "Response saved to "@ + path
}

/// The name of the directory that holds the output file.
pub fn output_dir() -> (r: String)
    ensures
        r@ == output_dir_spec(),
{
    "data".to_owned()
}

/// The path of the output file for an address.
pub fn output_file_path(address: &str) -> (r: String)
    ensures
        r@ == output_file_path_spec(address@),
{
    let mut s = "data/".to_owned();
    s.append(address);
    s.append(".json");
    s
}

/// The console notice printed after the response has been persisted.
pub fn saved_notice(path: &str) -> (r: String)
    ensures
        r@ == saved_notice_spec(path@),
{
    let mut s = "Response saved to ".to_owned();
    s.append(path);
    s
}

/// The persistence decision for a fetched address-list body: a body that is
/// not well-formed JSON is rejected as a decode error and nothing may be
/// written; a well-formed body succeeds, re-serialized as the pretty-printed
/// form of its document, and that text is what the output file must hold.
pub fn plan_persist(body: &str) -> (r: Result<String, FlowError>)
    ensures
        r is Ok <==> json_wellformed(body@),
        r matches Ok(p) ==> p@ == pretty_of(body@),
        r is Err ==> r == Err::<String, FlowError>(FlowError::DecodeError),
{
    let v = match parse_json(body) {
        Ok(v) => v,
        Err(_) => {
            return Err(FlowError::DecodeError);
        },
    };
    match to_pretty(&v) {
        Ok(s) => Ok(s),
        Err(_) => Err(FlowError::DecodeError),
    }
}

/// The decode step over the persisted file's content: the text must be
/// well-formed JSON whose `result` array carries one string `hash` per
/// entry, and exactly those hashes come back, in entry order. Any other
/// shape is a decode error, which is fatal for the run.
pub fn decode_saved(data: &str) -> (r: Result<Vec<String>, FlowError>)
    ensures
        r matches Ok(hs) ==> hashes_of(data@) == Some(hs@.map_values(|h: String| h@)),
        r is Err <==> hashes_of(data@) is None,
        r is Err ==> r == Err::<Vec<String>, FlowError>(FlowError::DecodeError),
{
    let root = match parse_json(data) {
        Ok(v) => v,
        Err(_) => {
            return Err(FlowError::DecodeError);
        },
    };
    extract_hashes(&root)
}

/// The outcome of one per-hash detail fetch, as handed back by the caller
/// that performed it: the pretty-printed response body on success, or the
/// failure's message.
pub enum DetailOutcome {
    Success(String),
    Failure(String),
}

/// One console line of the per-hash report: its text, and whether it belongs
/// on the error stream.
pub struct ReportLine {
    pub text: String,
    pub is_error: bool,
}

/// The report text for one hash: a response block on success, an error line
/// naming the hash on failure.
pub open spec fn report_text_spec(hash: Seq<char>, outcome: DetailOutcome) -> Seq<char> {
    match outcome {
        DetailOutcome::Success(body) => "Response for hash "@ + hash + ": "@ + body@,
        DetailOutcome::Failure(msg) => "Error for hash "@ + hash + ": "@ + msg@,
    }
}

/// The report line for one hash and the outcome of its detail fetch.
pub fn detail_report_line(hash: &str, outcome: &DetailOutcome) -> (r: ReportLine)
    ensures
        r.text@ == report_text_spec(hash@, *outcome),
        r.is_error == (*outcome is Failure),
{
    match outcome {
        DetailOutcome::Success(body) => {
            let mut s = "Response for hash ".to_owned();
            s.append(hash);
            s.append(": ");
            s.append(body.as_str());
            ReportLine { text: s, is_error: false }
        },
        DetailOutcome::Failure(msg) => {
            let mut s = "Error for hash ".to_owned();
            s.append(hash);
            s.append(": ");
            s.append(msg.as_str());
            ReportLine { text: s, is_error: true }
        },
    }
}

/// The per-hash report of a run: one line per hash, in the order the hashes
/// were listed. A failed detail fetch yields an error line for its own hash
/// and nothing else: it neither drops nor reorders the lines of the other
/// hashes, and the run carries on to the end of the list.
pub fn detail_reports(hashes: &Vec<String>, outcomes: &Vec<DetailOutcome>) -> (r: Vec<ReportLine>)
    requires
        hashes@.len() == outcomes@.len(),
    ensures
        r@.len() == hashes@.len(),
        forall|i: int| 0 <= i < r@.len() ==> (#[trigger] r@[i]).text@ == report_text_spec(
            hashes@[i]@,
            outcomes@[i],
        ) && r@[i].is_error == (outcomes@[i] is Failure),
{
    let mut out: Vec<ReportLine> = Vec::new();
    let mut i: usize = 0;
    while i < hashes.len()
        invariant
            hashes@.len() == outcomes@.len(),
            i <= hashes@.len(),
            out@.len() == i as int,
            forall|j: int| 0 <= j < i ==> (#[trigger] out@[j]).text@ == report_text_spec(
                hashes@[j]@,
                outcomes@[j],
            ) && out@[j].is_error == (outcomes@[j] is Failure),
        decreases hashes@.len() - i,
    {
        let line = detail_report_line(hashes[i].as_str(), &outcomes[i]);
        out.push(line);
        i = i + 1;
    }
    out
}

} // verus!
