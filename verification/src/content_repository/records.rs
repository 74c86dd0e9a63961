//! The file of the repository as a sequence of bytes, and what a run of
//! appends does to it.

use crate::content_repository::content_repository_manager::{record_of, RECORD_END};
use vstd::prelude::*;

verus! {

/// The file after the payloads in `writes` were appended to `file`, in
/// order, each as one record.
pub open spec fn file_after(file: Seq<u8>, writes: Seq<Seq<u8>>) -> Seq<u8>
    decreases writes.len(),
{
    if writes.len() == 0 {
        file
    } else {
        file_after(file, writes.drop_last()) + record_of(writes.last())
    }
}

/// The offset that the writer returns for write number `i`: the length of
/// the file just before that write.
pub open spec fn offset_of(file: Seq<u8>, writes: Seq<Seq<u8>>, i: int) -> nat {
    file_after(file, writes.take(i)).len()
}

/// The length that the writer counts after the payloads in `writes`,
/// starting from a file of `length` bytes.
pub open spec fn length_after(length: nat, writes: Seq<Seq<u8>>) -> nat
    decreases writes.len(),
{
    if writes.len() == 0 {
        length
    } else {
        length_after(length, writes.drop_last()) + record_of(writes.last()).len()
    }
}

/// The length that the writer counts is the length of the file.
pub proof fn lemma_writer_knows_length(file: Seq<u8>, writes: Seq<Seq<u8>>)
    ensures
        file_after(file, writes).len() == length_after(file.len(), writes),
    decreases writes.len(),
{
    if writes.len() > 0 {
        lemma_writer_knows_length(file, writes.drop_last());
    }
}

/// Appending never touches what is already there: the file after the first
/// `i` writes is the beginning of the file after all of them.
pub proof fn lemma_file_only_grows(file: Seq<u8>, writes: Seq<Seq<u8>>, i: int)
    requires
        0 <= i <= writes.len(),
    ensures
        file_after(file, writes.take(i)).is_prefix_of(file_after(file, writes)),
    decreases writes.len(),
{
    if i == writes.len() {
        assert(writes.take(i) =~= writes);
    } else {
        let head = writes.drop_last();
        lemma_file_only_grows(file, head, i);
        assert(head.take(i) =~= writes.take(i));
    }
}

/// Offsets come out strictly increasing in the order of the writes.
pub proof fn lemma_offsets_increase(file: Seq<u8>, writes: Seq<Seq<u8>>, i: int, j: int)
    requires
        0 <= i < j <= writes.len(),
    ensures
        offset_of(file, writes, i) < offset_of(file, writes, j),
    decreases j - i,
{
    let upto = writes.take(j);
    assert(upto.drop_last() =~= writes.take(j - 1));
    assert(file_after(file, upto) == file_after(file, writes.take(j - 1)) + record_of(upto.last()));
    if i < j - 1 {
        lemma_offsets_increase(file, writes, i, j - 1);
    }
}

/// Every record can be read back: at the offset returned for a write, the
/// final file holds that write's payload, byte for byte, and then the
/// newline that ends the record.
pub proof fn lemma_record_reads_back(file: Seq<u8>, writes: Seq<Seq<u8>>, i: int)
    requires
        0 <= i < writes.len(),
    ensures
        offset_of(file, writes, i) + writes[i].len() < file_after(file, writes).len(),
        file_after(file, writes).subrange(
            offset_of(file, writes, i) as int,
            (offset_of(file, writes, i) + writes[i].len()) as int,
        ) == writes[i],
        file_after(file, writes)[(offset_of(file, writes, i) + writes[i].len()) as int]
            == RECORD_END,
{
    let offset = offset_of(file, writes, i) as int;
    let upto = writes.take(i + 1);
    let stored = file_after(file, upto);
    let all = file_after(file, writes);
    assert(upto.drop_last() =~= writes.take(i));
    assert(upto.last() == writes[i]);
    assert(stored == file_after(file, writes.take(i)) + record_of(writes[i]));
    lemma_file_only_grows(file, writes, i + 1);
    assert(stored =~= all.subrange(0, stored.len() as int));
    assert(all[offset + writes[i].len()] == stored[offset + writes[i].len()]);
    assert(all.subrange(offset, offset + writes[i].len()) =~= writes[i]) by {
        assert forall|k: int| 0 <= k < writes[i].len() implies all[offset + k] == writes[i][k] by {
            assert(all[offset + k] == stored[offset + k]);
        }
    }
}

} // verus!
