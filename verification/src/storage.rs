//! The decisions of oracle trace storage: endpoint and object names, spool
//! file names, and how persisting and syncing are reported. The files and
//! the uploads themselves are the caller's.

use vstd::prelude::*;
use crate::payload::text_opt;
use crate::text::{decimal, owned, push_str, starts_with, trim_end_by};
use crate::validator::{OracleTracePersistResult, OracleTraceRecord, OracleTraceSyncStats};

verus! {

/// An endpoint with a scheme: `endpoint` without trailing slashes, given
/// `https://` when `secure` and `http://` otherwise, unless it has a
/// scheme already.
pub open spec fn endpoint_spec(endpoint: Seq<char>, secure: bool) -> Seq<char> {
    let e = trim_end_by(endpoint, false, seq!['/']);
    if starts_with(e, "http://"@) || starts_with(e, "https://"@) {
        e
    } else if secure {
        "https://"@ + e
    } else {
        "http://"@ + e
    }
}

/// An endpoint URL with its scheme.
pub fn normalize_endpoint(endpoint: &str, secure: bool) -> (r: String)
    ensures
        r@ == endpoint_spec(endpoint@, secure),
{
    let cs = crate::text::chars_of(endpoint);
    let slash: Vec<char> = vec!['/'];
    assert(slash@ =~= seq!['/']);
    let e = crate::text::trimmed_end_by(cs.as_slice(), slash.as_slice());
    let es = crate::text::string_from(e.as_slice());
    if crate::text::starts_with_str(e.as_slice(), "http://") || crate::text::starts_with_str(e.as_slice(), "https://") {
        es
    } else if secure {
        let mut r = owned("https://");
        push_str(&mut r, es.as_str());
        r
    } else {
        let mut r = owned("http://");
        push_str(&mut r, es.as_str());
        r
    }
}

/// The decimal text of a signed number.
pub open spec fn signed_decimal(n: i64) -> Seq<char> {
    if n < 0 {
        "-"@ + decimal((-n) as nat)
    } else {
        decimal(n as nat)
    }
}

fn signed_decimal_text(n: i64) -> (r: String)
    ensures
        r@ == signed_decimal(n),
{
    if n < 0 {
        let m: u128 = (0i128 - (n as i128)) as u128;
        let d = crate::text::decimal_wide(m);
        let mut r = owned("-");
        crate::text::push_all(&mut r, d.as_slice());
        r
    } else {
        let d = crate::text::decimal_wide(n as u128);
        crate::text::string_from(d.as_slice())
    }
}

/// The id a stored record is filed under: its trace id, or `fresh` when it
/// has none.
pub open spec fn file_id(record: OracleTraceRecord, fresh: Seq<char>) -> Seq<char> {
    if record.trace.trace_id@.len() == 0 {
        fresh
    } else {
        record.trace.trace_id@
    }
}

/// The spool file name of a record: `{ts_ms}_{id}_{verdict}.jsonl`.
pub open spec fn spool_name_spec(record: OracleTraceRecord, ts_ms: i64, id: Seq<char>) -> Seq<char> {
    signed_decimal(ts_ms) + "_"@ + id + "_"@ + record.verdict@ + ".jsonl"@
}

/// The spool file name of a record written at `ts_ms` milliseconds; a
/// record without a trace id gets a fresh one.
pub fn spool_filename(record: &OracleTraceRecord, ts_ms: i64) -> (r: String)
    ensures
        exists|fresh: Seq<char>| r@ == #[trigger] spool_name_spec(*record, ts_ms, file_id(*record, fresh)),
{
    let id = if record.trace.trace_id.as_str().is_empty() {
        crate::validator::new_trace_id()
    } else {
        record.trace.trace_id.clone()
    };
    let mut r = signed_decimal_text(ts_ms);
    push_str(&mut r, "_");
    push_str(&mut r, id.as_str());
    push_str(&mut r, "_");
    push_str(&mut r, record.verdict.as_str());
    push_str(&mut r, ".jsonl");
    assert(r@ == spool_name_spec(*record, ts_ms, file_id(*record, id@)));
    r
}

/// The object key of a record: under the prefix (without trailing
/// slashes), `oracle/{verdict}/{date_path}/{timestamp}_{id}.jsonl`.
pub open spec fn object_key_spec(
    prefix: Seq<char>,
    record: OracleTraceRecord,
    date_path: Seq<char>,
    timestamp: Seq<char>,
    id: Seq<char>,
) -> Seq<char> {
    trim_end_by(prefix, false, seq!['/']) + "/oracle/"@ + record.verdict@ + "/"@ + date_path + "/"@ + timestamp + "_"@
        + id + ".jsonl"@
}

/// The object key of a record uploaded at the time given by `date_path`
/// (`%Y/%m/%d/%H`) and `timestamp` (`%Y%m%dT%H%M%S`); a record without a
/// trace id gets a fresh one.
pub fn object_key(prefix: &str, record: &OracleTraceRecord, date_path: &str, timestamp: &str) -> (r: String)
    ensures
        exists|fresh: Seq<char>| r@ == #[trigger] object_key_spec(
            prefix@,
            *record,
            date_path@,
            timestamp@,
            file_id(*record, fresh),
        ),
{
    let id = if record.trace.trace_id.as_str().is_empty() {
        crate::validator::new_trace_id()
    } else {
        record.trace.trace_id.clone()
    };
    let pc = crate::text::chars_of(prefix);
    let slash: Vec<char> = vec!['/'];
    assert(slash@ =~= seq!['/']);
    let p = crate::text::trimmed_end_by(pc.as_slice(), slash.as_slice());
    let mut r = crate::text::string_from(p.as_slice());
    push_str(&mut r, "/oracle/");
    push_str(&mut r, record.verdict.as_str());
    push_str(&mut r, "/");
    push_str(&mut r, date_path);
    push_str(&mut r, "/");
    push_str(&mut r, timestamp);
    push_str(&mut r, "_");
    push_str(&mut r, id.as_str());
    push_str(&mut r, ".jsonl");
    assert(r@ == object_key_spec(prefix@, *record, date_path@, timestamp@, file_id(*record, id@)));
    r
}

/// The URL of an uploaded object: `{endpoint}/{bucket}/{key}`, the
/// endpoint without trailing slashes.
pub fn object_url(endpoint: &str, bucket: &str, key: &str) -> (r: String)
    ensures
        r@ == trim_end_by(endpoint@, false, seq!['/']) + "/"@ + bucket@ + "/"@ + key@,
{
    let ec = crate::text::chars_of(endpoint);
    let slash: Vec<char> = vec!['/'];
    assert(slash@ =~= seq!['/']);
    let e = crate::text::trimmed_end_by(ec.as_slice(), slash.as_slice());
    let mut r = crate::text::string_from(e.as_slice());
    push_str(&mut r, "/");
    push_str(&mut r, bucket);
    push_str(&mut r, "/");
    push_str(&mut r, key);
    r
}

/// What became of the upload of a spooled record.
pub enum UploadOutcome {
    /// No remote storage is configured.
    NotConfigured,
    /// The upload failed with this error.
    Failed(String),
    /// Uploaded under `key` at `url`; `remove_error` tells why the spool
    /// file could not be removed, if it could not.
    Uploaded { key: String, url: String, remove_error: Option<String> },
}

/// The report of persisting a record spooled at `spooled_path`, given what
/// became of its upload and how many records are pending afterwards.
pub fn persist_report(
    verdict: &str,
    spooled_path: &str,
    upload: UploadOutcome,
    pending_count: usize,
) -> (r: OracleTracePersistResult)
    ensures
        r.verdict@ == verdict@,
        r.spooled_path@ == spooled_path@,
        r.pending_count == pending_count,
        match upload {
            UploadOutcome::NotConfigured => !r.uploaded && r.remote_key is None && r.remote_url is None
                && text_opt(r.warning) == Some("Remote MinIO not configured, kept local spool"@),
            UploadOutcome::Failed(e) => !r.uploaded && r.remote_key is None && r.remote_url is None
                && text_opt(r.warning) == Some("Upload failed, kept local spool: "@ + e@),
            UploadOutcome::Uploaded { key, url, remove_error } => r.uploaded && text_opt(r.remote_key) == Some(
                key@,
            ) && text_opt(r.remote_url) == Some(url@) && text_opt(r.warning) == match remove_error {
                Some(e) => Some("Uploaded but failed to remove spool file "@ + spooled_path@ + ": "@ + e@),
                None => None,
            },
        },
{
    let ghost u = upload;
    let (uploaded, remote_key, remote_url, warning) = match upload {
        UploadOutcome::NotConfigured => (false, None, None, Some(owned("Remote MinIO not configured, kept local spool"))),
        UploadOutcome::Failed(e) => {
            let mut w = owned("Upload failed, kept local spool: ");
            push_str(&mut w, e.as_str());
            (false, None, None, Some(w))
        },
        UploadOutcome::Uploaded { key, url, remove_error } => {
            let warning = match remove_error {
                Some(e) => {
                    let mut w = owned("Uploaded but failed to remove spool file ");
                    push_str(&mut w, spooled_path);
                    push_str(&mut w, ": ");
                    push_str(&mut w, e.as_str());
                    Some(w)
                },
                None => None,
            };
            (true, Some(key), Some(url), warning)
        },
    };
    OracleTracePersistResult {
        verdict: owned(verdict),
        spooled_path: owned(spooled_path),
        uploaded,
        remote_key,
        remote_url,
        pending_count,
        warning,
    }
}

/// What became of one spool file during a sync.
#[derive(Debug, Clone, Copy, PartialEq, Eq, Structural)]
pub enum SyncOutcome {
    /// The file did not hold a valid record; it stays.
    Invalid,
    /// Uploaded and removed.
    Uploaded,
    /// Uploaded, but the local copy could not be removed.
    UploadedKept,
    /// The upload failed; the file stays.
    UploadFailed,
}

impl OracleTraceSyncStats {
    /// Counts what became of one spool file: every upload counts as
    /// uploaded, every file that stays as failed and retained.
    pub fn count(&mut self, o: SyncOutcome)
        requires
            old(self).uploaded < usize::MAX,
            old(self).failed < usize::MAX,
            old(self).retained < usize::MAX,
        ensures
            final(self).uploaded == old(self).uploaded + if o == SyncOutcome::Uploaded || o
                == SyncOutcome::UploadedKept {
                1int
            } else {
                0int
            },
            final(self).failed == old(self).failed + if o == SyncOutcome::Uploaded {
                0int
            } else {
                1int
            },
            final(self).retained == old(self).retained + if o == SyncOutcome::Uploaded {
                0int
            } else {
                1int
            },
            final(self).pending_after == old(self).pending_after,
    {
        match o {
            SyncOutcome::Invalid | SyncOutcome::UploadFailed => {
                self.failed = self.failed + 1;
                self.retained = self.retained + 1;
            },
            SyncOutcome::Uploaded => {
                self.uploaded = self.uploaded + 1;
            },
            SyncOutcome::UploadedKept => {
                self.uploaded = self.uploaded + 1;
                self.failed = self.failed + 1;
                self.retained = self.retained + 1;
            },
        }
    }

    /// The report of a sync with no remote storage: every pending file is
    /// retained.
    pub fn unconfigured(pending_after: usize) -> (s: Self)
        ensures
            s.uploaded == 0 && s.failed == 0 && s.retained == pending_after && s.pending_after == pending_after,
    {
        OracleTraceSyncStats { uploaded: 0, retained: pending_after, failed: 0, pending_after }
    }
}

} // verus!
