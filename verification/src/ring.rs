//! The fixed-capacity ring that backs the recent-error log.
//!
//! The ring itself comes from the `circular_buffer` crate; this module is the
//! trusted boundary around it. Everything the engine relies on is stated here
//! once, over [`ring_contents`], and the eviction law is proved over the pure
//! model [`fifo_push`].

use vstd::prelude::*;
use circular_buffer::CircularBuffer;

verus! {

#[verifier::external_type_specification]
#[verifier::external_body]
#[verifier::reject_recursive_types(T)]
pub struct ExCircularBuffer<const N: usize, T>(CircularBuffer<N, T>);

/// The records held by a 256-slot ring of strings, oldest first.
pub uninterp spec fn ring_contents(b: CircularBuffer<256, String>) -> Seq<Seq<char>>;

/// Appending one record to a FIFO log of capacity 256: while there is room
/// the record goes at the back; once the log is full the oldest record
/// leaves at the front.
pub open spec fn fifo_push(log: Seq<Seq<char>>, rec: Seq<char>) -> Seq<Seq<char>> {
    if log.len() < 256 {
        log.push(rec)
    } else {
        log.drop_first().push(rec)
    }
}

/// Relies on `CircularBuffer::new`: the new ring is empty.
#[verifier::external_body]
pub fn ring_new() -> (r: CircularBuffer<256, String>)
    ensures
        ring_contents(r) == Seq::<Seq<char>>::empty(),
{
    CircularBuffer::new()
}

/// Relies on `CircularBuffer::push_back`: appends at the back; when the ring
/// is full, the front (oldest) record is overwritten and handed back.
#[verifier::external_body]
pub fn ring_push(b: &mut CircularBuffer<256, String>, rec: String) -> (evicted: Option<String>)
    ensures
        ring_contents(*final(b)) == fifo_push(ring_contents(*old(b)), rec@),
        evicted is Some <==> ring_contents(*old(b)).len() >= 256,
        evicted matches Some(s) ==> s@ == ring_contents(*old(b))[0],
{
    b.push_back(rec)
}

/// Relies on `CircularBuffer`'s `Clone`: the copy holds the same records in
/// the same order.
#[verifier::external_body]
pub fn ring_clone(b: &CircularBuffer<256, String>) -> (r: CircularBuffer<256, String>)
    ensures
        ring_contents(r) == ring_contents(*b),
{
    b.clone()
}

/// Relies on `CircularBuffer::to_vec`: the records, oldest first, with the
/// ring left unchanged.
#[verifier::external_body]
pub fn ring_to_vec(b: &CircularBuffer<256, String>) -> (r: Vec<String>)
    ensures
        r@.map_values(|s: String| s@) == ring_contents(*b),
{
    b.to_vec()
}

/// Law: the error log holds at most 256 records; pushing into a full log
/// evicts exactly the oldest record, and the retained records keep their
/// insertion order.
pub proof fn lemma_fifo_eviction(log: Seq<Seq<char>>, rec: Seq<char>)
    requires
        log.len() <= 256,
    ensures
        fifo_push(log, rec).len() <= 256,
        log.len() < 256 ==> fifo_push(log, rec) == log.push(rec),
        log.len() == 256 ==> fifo_push(log, rec).len() == 256,
        log.len() == 256 ==> fifo_push(log, rec)[255] == rec,
        log.len() == 256 ==> forall|i: int| 0 <= i < 255 ==> fifo_push(log, rec)[i] == log[i + 1],
{
}

} // verus!
