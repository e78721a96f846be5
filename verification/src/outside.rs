//! What the library takes from outside without proof: types that it carries
//! and never looks into, and the calls it makes on trust.

use std::collections::hash_map::DefaultHasher;
use std::hash::Hash;
use uuid::Uuid;
use vstd::prelude::*;

verus! {

/// `uuid::Uuid`, the identifier of a job: carried, copied and handed out.
#[verifier::external_type_specification]
#[verifier::external_body]
pub struct ExUuid(uuid::Uuid);

/// `serde_json::Value`, the metadata that a job leaves behind: carried.
#[verifier::external_type_specification]
#[verifier::external_body]
pub struct ExJsonValue(serde_json::Value);

/// `tokio::task::JoinError`, how a spawned task went wrong: carried.
#[verifier::external_type_specification]
#[verifier::external_body]
pub struct ExJoinError(tokio::task::JoinError);

/// `tokio::sync::oneshot::Sender`, the end of a channel on which somebody
/// awaits an answer: carried, and handed back to the caller to be answered.
#[verifier::external_type_specification]
#[verifier::external_body]
#[verifier::reject_recursive_types(T)]
pub struct ExOneshotSender<T>(tokio::sync::oneshot::Sender<T>);

/// `rmp_serde::encode::Error`, why a state could not be encoded: carried.
#[verifier::external_type_specification]
#[verifier::external_body]
pub struct ExEncodeError(rmp_serde::encode::Error);

/// `rmp_serde::decode::Error`, why a state could not be decoded: carried.
#[verifier::external_type_specification]
#[verifier::external_body]
pub struct ExDecodeError(rmp_serde::decode::Error);

/// `std::time::Instant`, when a command was sent: carried.
#[verifier::external_type_specification]
#[verifier::external_body]
pub struct ExInstant(std::time::Instant);

/// Calls `uuid::Uuid::new_v4`. The identifier is drawn from the operating
/// system's random numbers, so nothing is claimed of it: not that it is new,
/// nor which bits mark it as a random one. The call panics where the operating
/// system has no random numbers to give.
#[verifier::external_body]
pub(crate) fn new_v4() -> (id: Uuid) {
    Uuid::new_v4()
}

/// What hashing a string with `str`'s `Hash` writes into a hasher, write by
/// write: a function of the string alone.
pub uninterp spec fn str_hash_writes(s: Seq<char>) -> Seq<Seq<u8>>;

/// Calls `<str as std::hash::Hash>::hash`. Claimed: the writes that stand for
/// the string are added to those that the hasher has seen.
#[verifier::external_body]
pub(crate) fn hash_str(s: &str, state: &mut DefaultHasher)
    ensures
        final(state)@ == old(state)@ + str_hash_writes(s@),
{
    s.hash(state)
}

/// Calls `<T as std::hash::Hash>::hash`. Claimed: it only adds writes to those
/// that the hasher has seen, as an impl that knows nothing of the hasher but
/// that it is one can do nothing else to it. Which writes those are is up to
/// the impl of `T` and is left unsaid; contracts that speak of them speak of
/// this function, which is public for that reason.
#[verifier::external_body]
pub fn hash_value<T: Hash>(value: &T, state: &mut DefaultHasher)
    ensures
        exists|writes: Seq<Seq<u8>>| final(state)@ == #[trigger] (old(state)@ + writes),
{
    value.hash(state)
}

} // verus!
