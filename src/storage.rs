//! Where a channel's file lives under a root directory.
use crate::api::ChannelError;
use vstd::prelude::*;
use vstd::string::StringExecFns;

verus! {

/// The lower-case hexadecimal digit of `d` (below 16).
pub open spec fn hex_char(d: int) -> char {
    if d == 0 { '0' }
    else if d == 1 { '1' }
    else if d == 2 { '2' }
    else if d == 3 { '3' }
    else if d == 4 { '4' }
    else if d == 5 { '5' }
    else if d == 6 { '6' }
    else if d == 7 { '7' }
    else if d == 8 { '8' }
    else if d == 9 { '9' }
    else if d == 10 { 'a' }
    else if d == 11 { 'b' }
    else if d == 12 { 'c' }
    else if d == 13 { 'd' }
    else if d == 14 { 'e' }
    else { 'f' }
}

/// A 16-bit value as four lower-case hexadecimal digits.
pub open spec fn hex4(v: int) -> Seq<char> {
    seq![hex_char((v / 4096) % 16), hex_char((v / 256) % 16), hex_char((v / 16) % 16), hex_char(v % 16)]
}

/// The 16-bit group of `id` that starts at bit `16 * k`.
pub open spec fn group(id: u64, k: int) -> int {
    if k == 0 {
        id as int % 0x1_0000
    } else if k == 1 {
        (id as int / 0x1_0000) % 0x1_0000
    } else if k == 2 {
        (id as int / 0x1_0000_0000) % 0x1_0000
    } else {
        id as int / 0x1_0000_0000_0000
    }
}

/// Path of the files of channel `id` under `root`, without extension: `root/HHHH_hhhh/LLLL_llll`.
pub open spec fn spec_storage_stem(root: Seq<char>, id: u64) -> Seq<char> {
    root + seq!['/'] + hex4(group(id, 3)) + seq!['_'] + hex4(group(id, 2)) + seq!['/'] + hex4(
        group(id, 1),
    ) + seq!['_'] + hex4(group(id, 0))
}

/// Path of the file of channel `id` under `root`: `root/HHHH_hhhh/LLLL_llll.kekbit`.
pub open spec fn spec_storage_path(root: Seq<char>, id: u64) -> Seq<char> {
    spec_storage_stem(root, id) + seq!['.', 'k', 'e', 'k', 'b', 'i', 't']
}

/// Path of the lock file that exists while channel `id` is being created: `root/HHHH_hhhh/LLLL_llll.lock`.
pub open spec fn spec_lock_path(root: Seq<char>, id: u64) -> Seq<char> {
    spec_storage_stem(root, id) + seq!['.', 'l', 'o', 'c', 'k']
}

fn hex_digit(d: u64) -> (r: &'static str)
    requires
        d < 16,
    ensures
        r@ == seq![hex_char(d as int)],
{
    proof {
        reveal_strlit("0");
        reveal_strlit("1");
        reveal_strlit("2");
        reveal_strlit("3");
        reveal_strlit("4");
        reveal_strlit("5");
        reveal_strlit("6");
        reveal_strlit("7");
        reveal_strlit("8");
        reveal_strlit("9");
        reveal_strlit("a");
        reveal_strlit("b");
        reveal_strlit("c");
        reveal_strlit("d");
        reveal_strlit("e");
        reveal_strlit("f");
    }
    match d {
        0 => "0",
        1 => "1",
        2 => "2",
        3 => "3",
        4 => "4",
        5 => "5",
        6 => "6",
        7 => "7",
        8 => "8",
        9 => "9",
        10 => "a",
        11 => "b",
        12 => "c",
        13 => "d",
        14 => "e",
        _ => "f",
    }
}

fn push_hex4(s: &mut String, v: u64)
    requires
        v < 0x1_0000,
    ensures
        final(s)@ == old(s)@ + hex4(v as int),
{
    s.append(hex_digit((v / 4096) % 16));
    s.append(hex_digit((v / 256) % 16));
    s.append(hex_digit((v / 16) % 16));
    s.append(hex_digit(v % 16));
    assert(final(s)@ =~= old(s)@ + hex4(v as int));
}

fn storage_stem(root_path: &str, channel_id: u64) -> (r: String)
    ensures
        r@ == spec_storage_stem(root_path@, channel_id),
{
    let mut s = String::from_str(root_path);
    s.append("/");
    push_hex4(&mut s, channel_id / 0x1_0000_0000_0000);
    s.append("_");
    push_hex4(&mut s, (channel_id / 0x1_0000_0000) % 0x1_0000);
    s.append("/");
    push_hex4(&mut s, (channel_id / 0x1_0000) % 0x1_0000);
    s.append("_");
    push_hex4(&mut s, channel_id % 0x1_0000);
    proof {
        reveal_strlit("/");
        reveal_strlit("_");
    }
    assert(s@ =~= spec_storage_stem(root_path@, channel_id));
    s
}

/// Returns the path of the file that backs channel `channel_id` under `root_path`.
/// The four 16-bit groups of the id, most significant first, name a directory
/// `HHHH_hhhh` and a file `LLLL_llll.kekbit`, in lower-case hexadecimal.
pub fn storage_path(root_path: &str, channel_id: u64) -> (r: String)
    ensures
        r@ == spec_storage_path(root_path@, channel_id),
{
    let mut s = storage_stem(root_path, channel_id);
    s.append(".kekbit");
    proof {
        reveal_strlit(".kekbit");
    }
    assert(s@ =~= spec_storage_path(root_path@, channel_id));
    s
}

/// Returns the path of the lock file beside the file of channel `channel_id`:
/// the same path with the extension `lock`.
pub fn lock_path(root_path: &str, channel_id: u64) -> (r: String)
    ensures
        r@ == spec_lock_path(root_path@, channel_id),
{
    let mut s = storage_stem(root_path, channel_id);
    s.append(".lock");
    proof {
        reveal_strlit(".lock");
    }
    assert(s@ =~= spec_lock_path(root_path@, channel_id));
    s
}

/// Decides whether a channel may be opened for reading, given whether its file
/// and its lock file exist: a missing file is `StorageNotFound`, a lock file still
/// present (the channel is being created) is `StorageNotReady`.
pub fn check_open(file_exists: bool, lock_exists: bool, file_name: String) -> (r: Result<(), ChannelError>)
    ensures
        !file_exists ==> r == Err::<(), ChannelError>(ChannelError::StorageNotFound { file_name }),
        file_exists && lock_exists ==> r == Err::<(), ChannelError>(
            ChannelError::StorageNotReady { file_name },
        ),
        file_exists && !lock_exists ==> r is Ok,
{
    if !file_exists {
        Err(ChannelError::StorageNotFound { file_name })
    } else if lock_exists {
        Err(ChannelError::StorageNotReady { file_name })
    } else {
        Ok(())
    }
}

/// Decides whether a channel may be created, given whether its file exists:
/// an existing file is `StorageAlreadyExists`, as a channel has a single writer.
pub fn check_create(file_exists: bool, file_name: String) -> (r: Result<(), ChannelError>)
    ensures
        file_exists ==> r == Err::<(), ChannelError>(ChannelError::StorageAlreadyExists { file_name }),
        !file_exists ==> r is Ok,
{
    if file_exists {
        Err(ChannelError::StorageAlreadyExists { file_name })
    } else {
        Ok(())
    }
}

} // verus!
