//! A zero-copy account of fixed size whose leading bytes are overwritten.
use vstd::prelude::*;

verus! {

/// The account's payload.
pub struct DataContainer {
    pub temp_data: [u8; 50000],
}

/// The bytes after `data` is written over the leading bytes of `old`.
pub open spec fn overwrite_prefix(old: Seq<u8>, data: Seq<u8>) -> Seq<u8> {
    data + old.skip(data.len() as int)
}

/// Copies `temp_data` over the leading bytes of `data`; the rest stays as
/// it was.
pub fn write_prefix(data: &mut [u8; 50000], temp_data: &Vec<u8>)
    requires
        temp_data@.len() <= 50000,
    ensures
        final(data)@ == overwrite_prefix(old(data)@, temp_data@),
        forall|k: int| 0 <= k < temp_data@.len() ==> final(data)@[k] == temp_data@[k],
        forall|k: int| temp_data@.len() <= k < 50000 ==> final(data)@[k] == old(data)@[k],
{
    let n = temp_data.len();
    let mut i: usize = 0;
    while i < n
        invariant
            n == temp_data@.len(),
            n <= 50000,
            i <= n,
            data@.len() == 50000,
            forall|k: int| 0 <= k < i ==> data@[k] == temp_data@[k],
            forall|k: int| i <= k < 50000 ==> data@[k] == old(data)@[k],
        decreases n - i,
    {
        data[i] = temp_data[i];
        i += 1;
    }
    assert(data@ =~= overwrite_prefix(old(data)@, temp_data@));
}

/// Fills the leading bytes of a freshly zeroed container; the program
/// panics when `temp_data` is longer than the container.
pub fn initialize_data_container(container: &mut DataContainer, temp_data: Vec<u8>)
    requires
        temp_data@.len() <= 50000,
    ensures
        final(container).temp_data@ == overwrite_prefix(old(container).temp_data@, temp_data@),
        forall|k: int| 0 <= k < temp_data@.len() ==> final(container).temp_data@[k] == temp_data@[k],
        forall|k: int|
            temp_data@.len() <= k < 50000 ==> final(container).temp_data@[k]
                == old(container).temp_data@[k],
{
    write_prefix(&mut container.temp_data, &temp_data);
}

/// Overwrites the leading bytes of a container; the program panics when
/// `temp_data` is longer than the container.
pub fn push_in_data_container(container: &mut DataContainer, temp_data: Vec<u8>)
    requires
        temp_data@.len() <= 50000,
    ensures
        final(container).temp_data@ == overwrite_prefix(old(container).temp_data@, temp_data@),
        forall|k: int| 0 <= k < temp_data@.len() ==> final(container).temp_data@[k] == temp_data@[k],
        forall|k: int|
            temp_data@.len() <= k < 50000 ==> final(container).temp_data@[k]
                == old(container).temp_data@[k],
{
    write_prefix(&mut container.temp_data, &temp_data);
}

/// A write keeps the container's size, and a later write that is at least
/// as long replaces an earlier one entirely.
pub proof fn lemma_last_write_wins(container: Seq<u8>, first: Seq<u8>, second: Seq<u8>)
    requires
        first.len() <= second.len() <= container.len(),
    ensures
        overwrite_prefix(container, first).len() == container.len(),
        overwrite_prefix(overwrite_prefix(container, first), second) == overwrite_prefix(
            container,
            second,
        ),
{
    assert(overwrite_prefix(overwrite_prefix(container, first), second) =~= overwrite_prefix(
        container,
        second,
    ));
}

/// What a write puts in front is read back from the front.
pub proof fn lemma_prefix_reads_back(container: Seq<u8>, data: Seq<u8>)
    requires
        data.len() <= container.len(),
    ensures
        overwrite_prefix(container, data).take(data.len() as int) == data,
{
    assert(overwrite_prefix(container, data).take(data.len() as int) =~= data);
}

/// A write puts `data` at the front and leaves every byte at or beyond its
/// length as it was.
pub proof fn lemma_write_keeps_the_rest(container: Seq<u8>, data: Seq<u8>)
    requires
        data.len() <= container.len(),
    ensures
        overwrite_prefix(container, data).len() == container.len(),
        forall|k: int| 0 <= k < data.len() ==> overwrite_prefix(container, data)[k] == data[k],
        forall|k: int|
            data.len() <= k < container.len() ==> overwrite_prefix(container, data)[k]
                == container[k],
{
}

} // verus!
