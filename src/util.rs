use vstd::prelude::*;

use crate::error::SpotifyError;

verus! {

/// An ASCII letter or digit: `0`-`9`, `A`-`Z` or `a`-`z`.
pub open spec fn is_alphanumeric_byte(b: u8) -> bool {
    (48 <= b <= 57) || (65 <= b <= 90) || (97 <= b <= 122)
}

/// Relies on `SystemTime::now` and `SystemTime::duration_since`: whole seconds
/// since the Unix epoch, `None` where the clock reads earlier than the epoch.
#[verifier::external_body]
pub(crate) fn unix_now_secs() -> (r: Option<u64>) {
    std::time::SystemTime::now().duration_since(std::time::UNIX_EPOCH).ok().map(|d| d.as_secs())
}

/// Relies on `SeedableRng::from_rng` seeding `StdRng` from `OsRng`, which
/// returns the entropy source's failure as an error, and on rand's
/// `Alphanumeric` distribution: each byte is an ASCII letter or digit.
#[verifier::external_body]
fn random_alphanumeric_bytes(length: usize) -> (r: Result<Vec<u8>, rand::Error>)
    ensures
        r matches Ok(v) ==> v@.len() == length,
        r matches Ok(v) ==> forall|i: int|
            0 <= i < v@.len() ==> is_alphanumeric_byte(#[trigger] v@[i]),
{
    let rng: rand::rngs::StdRng = rand::SeedableRng::from_rng(rand::rngs::OsRng)?;
    Ok(rand::Rng::sample_iter(rng, &rand::distributions::Alphanumeric).take(length).collect())
}

/// Relies on `String::from_utf8_lossy`: ASCII bytes come out as the same characters.
#[verifier::external_body]
fn ascii_text(b: &Vec<u8>) -> (r: String)
    requires
        forall|i: int| 0 <= i < b@.len() ==> #[trigger] b@[i] < 128,
    ensures
        r@ == b@.map_values(|x: u8| x as char),
{
    String::from_utf8_lossy(b).into_owned()
}

/// The instant `elapsed` seconds after `now`, where it fits in an `i64`.
pub open spec fn expiry_of(now: int, elapsed: int) -> Option<i64> {
    if now + elapsed <= i64::MAX {
        Some((now + elapsed) as i64)
    } else {
        None
    }
}

/// The instant `elapsed_seconds` after `now_secs`, in seconds since the
/// epoch, where it fits in an `i64`.
pub fn timestamp_after(now_secs: u64, elapsed_seconds: u32) -> (r: Option<i64>)
    ensures
        r == expiry_of(now_secs as int, elapsed_seconds as int),
{
    if now_secs > (i64::MAX as u64) - (elapsed_seconds as u64) {
        None
    } else {
        Some((now_secs + elapsed_seconds as u64) as i64)
    }
}

/// The timestamp `elapsed_seconds` from now, in seconds since the Unix epoch.
/// `None` where the clock reads before the epoch or the sum leaves `i64`.
pub fn datetime_to_timestamp(elapsed_seconds: u32) -> (r: Option<i64>)
    ensures
        r matches Some(t) ==> t >= elapsed_seconds,
{
    match unix_now_secs() {
        None => None,
        Some(now) => timestamp_after(now, elapsed_seconds),
    }
}

/// A random string of ASCII letters and digits of the given length; fails
/// only where the operating system's entropy source cannot seed the generator.
pub fn generate_random_string(length: usize) -> (r: Result<String, SpotifyError>)
    ensures
        r matches Ok(s) ==> s@.len() == length,
        r matches Ok(s) ==> forall|i: int|
            0 <= i < s@.len() ==> is_alphanumeric_byte(#[trigger] s@[i] as u8),
        r matches Ok(s) ==> forall|i: int| 0 <= i < s@.len() ==> (#[trigger] s@[i] as u32) < 128,
        r matches Err(e) ==> e is Random,
{
    let bytes = match random_alphanumeric_bytes(length) {
        Ok(b) => b,
        Err(e) => return Err(SpotifyError::Random(e)),
    };
    assert forall|i: int| 0 <= i < bytes@.len() implies #[trigger] bytes@[i] < 128 by {
        assert(is_alphanumeric_byte(bytes@[i]));
    }
    let r = ascii_text(&bytes);
    assert forall|i: int| 0 <= i < r@.len() implies is_alphanumeric_byte(#[trigger] r@[i] as u8)
        && (r@[i] as u32) < 128 by {
        assert(r@[i] == bytes@[i] as char);
        assert(is_alphanumeric_byte(bytes@[i]));
    }
    Ok(r)
}

} // verus!
