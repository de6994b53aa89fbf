//! Shared helpers: the clock, content hashing and progress events.
use vstd::prelude::*;
use crate::text::{hex_lower, to_hex_lower};
use sha2::Digest;

verus! {

/// The whole seconds elapsed since the Unix epoch on the system clock
/// (`SystemTime::now().duration_since(UNIX_EPOCH)`), or `None` when the clock
/// reads before the epoch. Nothing is stated of the value: it is read from
/// the system clock.
#[verifier::external_body]
fn seconds_since_epoch() -> (r: Option<u64>)
{
    std::time::SystemTime::now().duration_since(std::time::UNIX_EPOCH).ok().map(|d| d.as_secs())
}

/// The current time as seconds since the Unix epoch, or `None` when the
/// system clock reads before the epoch (or too far after it for an `i64`).
pub(crate) fn unix_timestamp_now() -> (r: Option<i64>)
    ensures
        r matches Some(t) ==> t >= 0,
{
    match seconds_since_epoch() {
        Some(secs) => {
            if secs <= i64::MAX as u64 {
                Some(secs as i64)
            } else {
                None
            }
        },
        None => None,
    }
}

/// The UTC date and time `secs` seconds after the Unix epoch, written as
/// `%Y%m%d%H%M%S` by the `chrono` crate.
pub uninterp spec fn compact_utc_text(secs: int) -> Seq<char>;

/// `chrono::DateTime::<Utc>::from_timestamp(secs, 0)`, written with
/// `format("%Y%m%d%H%M%S")`: the text of that instant (named
/// `compact_utc_text`), or `None` when the instant lies outside the dates
/// chrono represents. Every instant from year 0 to year 9999 is
/// represented, and there each field is zero-padded (the year to four digits,
/// the others to two), so the text is 14 decimal digits.
#[verifier::external_body]
fn utc_compact_text(secs: i64) -> (r: Option<String>)
    ensures
        r matches Some(t) ==> t@ == compact_utc_text(secs as int),
        -62167219200 <= secs <= 253402300799 ==> (r matches Some(t) && t@.len() == 14 && forall|i: int|
            0 <= i < 14 ==> '0' <= #[trigger] t@[i] <= '9'),
{
    chrono::DateTime::from_timestamp(secs, 0).map(|t| t.format("%Y%m%d%H%M%S").to_string())
}

/// Whether `t` is the `%Y%m%d%H%M%S` text of an instant `secs` seconds
/// after the Unix epoch, which for an instant before the year 10000 is 14
/// decimal digits.
pub open spec fn is_compact_utc_text_of(t: Seq<char>, secs: int) -> bool {
    &&& secs >= 0
    &&& t == compact_utc_text(secs)
    &&& secs <= 253402300799 ==> t.len() == 14 && forall|i: int| 0 <= i < 14 ==> '0' <= #[trigger] t[i] <= '9'
}

/// The current UTC time written as `%Y%m%d%H%M%S`, or `None` when the
/// system clock cannot be read as a time after the Unix epoch.
pub(crate) fn timestamp_text_now() -> (r: Option<String>)
    ensures
        r matches Some(t) ==> exists|secs: int| is_compact_utc_text_of(t@, secs),
{
    match unix_timestamp_now() {
        Some(secs) => {
            let r = utc_compact_text(secs);
            proof {
                if r is Some {
                    assert(is_compact_utc_text_of(r.unwrap()@, secs as int));
                }
            }
            r
        },
        None => None,
    }
}

/// The SHA-256 digest of a byte sequence, as computed by the `sha2` crate.
pub uninterp spec fn sha256(data: Seq<u8>) -> Seq<u8>;

/// `sha2::Sha256::digest`: the result is the SHA-256 digest of `data`, 32
/// bytes long (the output type of `Sha256` holds exactly 32 bytes).
#[verifier::external_body]
pub(crate) fn sha256_digest(data: &[u8]) -> (r: Vec<u8>)
    ensures
        r@ == sha256(data@),
        r@.len() == 32,
{
    sha2::Sha256::digest(data).to_vec()
}

/// The state of a `sha2::Sha256` hasher. Verus refuses a declaration of
/// `sha2::Sha256` (an alias whose parts are generic `digest` and `typenum`
/// types, none of them declarable here), so the state is held in a field
/// that Verus does not see; what was given to it is tracked by `FileHasher`.
#[verifier::external_body]
struct Sha256State {
    inner: sha2::Sha256,
}

/// A SHA-256 computation over data given piece by piece, such as a file read
/// in blocks; `fed` is everything given so far, in order.
pub struct FileHasher {
    state: Sha256State,
    fed: Ghost<Seq<u8>>,
}

impl FileHasher {
    /// Everything given to the hasher so far.
    pub closed spec fn fed(&self) -> Seq<u8> {
        self.fed@
    }

    /// `sha2::Sha256::new()`: a hasher that has been given nothing.
    #[verifier::external_body]
    pub fn new() -> (r: FileHasher)
        ensures
            r.fed() == Seq::<u8>::empty(),
    {
        FileHasher { state: Sha256State { inner: sha2::Sha256::new() }, fed: Ghost(Seq::empty()) }
    }

    /// `Digest::update`: gives `data` to the hasher after what it was given
    /// before.
    #[verifier::external_body]
    pub fn update(&mut self, data: &[u8])
        ensures
            final(self).fed() == old(self).fed() + data@,
    {
        self.state.inner.update(data)
    }

    /// `Digest::finalize`: the SHA-256 digest of everything given, which is
    /// the digest of the whole data at once (`Digest::digest` is `new`, then
    /// `update`, then `finalize`), 32 bytes long.
    #[verifier::external_body]
    fn finalize(self) -> (r: Vec<u8>)
        ensures
            r@ == sha256(self.fed()),
            r@.len() == 32,
    {
        self.state.inner.finalize().to_vec()
    }

    /// The SHA-256 digest of everything given, as 64 lower-case hexadecimal
    /// characters.
    pub fn finalize_hex(self) -> (r: String)
        ensures
            r@ == hex_lower(sha256(self.fed())),
            r@.len() == 64,
    {
        let digest = self.finalize();
        to_hex_lower(digest.as_slice())
    }
}

/// Computes the SHA-256 digest of `data` as 64 lower-case hexadecimal
/// characters.
pub fn calculate_sha256(data: &[u8]) -> (r: String)
    ensures
        r@ == hex_lower(sha256(data@)),
        r@.len() == 64,
{
    let digest = sha256_digest(data);
    to_hex_lower(digest.as_slice())
}

/// The stage of a long-running task that a progress event reports.
#[derive(Debug, Clone, Copy, PartialEq, Eq, Structural)]
pub enum EventType {
    Start,
    Progress,
    Complete,
}

/// A progress report sent to the user interface.
#[derive(Debug, Clone)]
pub struct ProgressEvent<T> {
    pub event_type: EventType,
    /// The task that reports, such as `archive`.
    pub operation: String,
    pub data: T,
    pub message: Option<String>,
}

/// Builds a progress event from its parts.
pub fn create_progress_event<T>(
    event_type: EventType,
    operation: &str,
    data: T,
    message: Option<String>,
) -> (r: ProgressEvent<T>)
    ensures
        r.event_type == event_type,
        r.operation@ == operation@,
        r.data == data,
        r.message == message,
{
    ProgressEvent { event_type, operation: operation.to_owned(), data, message }
}

} // verus!
