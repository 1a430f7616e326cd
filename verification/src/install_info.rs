//! Where a workshop item is installed, read from what the workshop service
//! wrote into the caller's buffers.

use vstd::prelude::*;
use vstd::utf8::*;

verus! {

/// The length of the folder buffer that the lookup of an item's install info
/// hands to the workshop service.
pub const MAX_PATH_SIZE: usize = 1024;

/// Where an installed workshop item lies on disk.
#[derive(Debug, PartialEq, Eq)]
pub struct ItemInstallInfo {
    /// The folder that holds the item's content.
    pub path: String,
    /// The size of the content in bytes.
    pub size: u64,
    /// When the item was last updated, in milliseconds since the epoch.
    pub timestamp: u64,
}

impl Clone for ItemInstallInfo {
    fn clone(&self) -> (info: Self)
        ensures
            info == *self,
    {
        ItemInstallInfo { path: self.path.clone(), size: self.size, timestamp: self.timestamp }
    }
}

/// The number of bytes before the first zero byte of `bytes`; its length if
/// it holds none.
pub open spec fn nul_position(bytes: Seq<u8>) -> int
    decreases bytes.len(),
{
    if bytes.len() == 0 || bytes[0] == 0 {
        0
    } else {
        1 + nul_position(bytes.drop_first())
    }
}

/// True if `end` is where the text of a zero-terminated buffer ends: no byte
/// before it is zero, and it is the buffer's length or the place of a zero.
pub open spec fn ends_text(bytes: Seq<u8>, end: int) -> bool {
    &&& 0 <= end <= bytes.len()
    &&& forall|i: int| 0 <= i < end ==> bytes[i] != 0
    &&& end < bytes.len() ==> bytes[end] == 0
}

/// The text of a zero-terminated buffer: the bytes before its first zero.
pub open spec fn c_string_bytes(bytes: Seq<u8>) -> Seq<u8> {
    bytes.take(nul_position(bytes))
}

/// `nul_position` is the one place at which the text of a buffer ends.
pub proof fn lemma_nul_position(bytes: Seq<u8>, end: int)
    ensures
        ends_text(bytes, nul_position(bytes)),
        ends_text(bytes, end) ==> end == nul_position(bytes),
    decreases bytes.len(),
{
    if bytes.len() == 0 || bytes[0] == 0 {
        if ends_text(bytes, end) && end > 0 {
            assert(bytes[0] != 0);
        }
    } else {
        let rest = bytes.drop_first();
        lemma_nul_position(rest, end - 1);
        let p = nul_position(rest);
        assert forall|i: int| 0 <= i < p + 1 implies bytes[i] != 0 by {
            if i > 0 {
                assert(rest[i - 1] == bytes[i]);
            }
        }
        if p + 1 < bytes.len() {
            assert(rest[p] == bytes[p + 1]);
        }
        if ends_text(bytes, end) {
            assert(end > 0);
            assert forall|i: int| 0 <= i < end - 1 implies rest[i] != 0 by {
                assert(rest[i] == bytes[i + 1]);
            }
            if end - 1 < rest.len() {
                assert(rest[end - 1] == bytes[end]);
            }
            assert(ends_text(rest, end - 1));
        }
    }
}

/// `String::from_utf8` of std, with its error dropped. It accepts exactly the
/// byte sequences that are valid UTF-8, and the string it makes of one is
/// the text that those bytes encode.
#[verifier::external_body]
fn string_from_utf8(bytes: Vec<u8>) -> (text: Option<String>)
    ensures
        text is Some <==> valid_utf8(bytes@),
        text matches Some(s) ==> encode_utf8(s@) == bytes@,
{
    String::from_utf8(bytes).ok()
}

/// Reads what a lookup of an item's install info left behind: whether the
/// service found the item, the folder as zero-terminated bytes in `buffer`,
/// the size, and the time of the last update.
///
/// There is an info exactly if the item was found and the bytes before the
/// buffer's first zero are valid UTF-8; its path is the text that they
/// encode.
pub fn get_item_install_info(found: bool, buffer: Vec<u8>, size: u64, timestamp: u32) -> (info:
    Option<ItemInstallInfo>)
    ensures
        info is Some <==> found && valid_utf8(c_string_bytes(buffer@)),
        info matches Some(i) ==> {
            &&& i.path@ == decode_utf8(c_string_bytes(buffer@))
            &&& encode_utf8(i.path@) == c_string_bytes(buffer@)
            &&& i.size == size
            &&& i.timestamp == timestamp
        },
{
    if !found {
        return None;
    }
    let mut buffer = buffer;
    let ghost bytes = buffer@;
    let mut end: usize = 0;
    while end < buffer.len() && buffer[end] != 0
        invariant
            buffer@ == bytes,
            end <= bytes.len(),
            forall|i: int| 0 <= i < end ==> bytes[i] != 0,
        decreases bytes.len() - end,
    {
        end += 1;
    }
    proof {
        lemma_nul_position(bytes, end as int);
    }
    buffer.truncate(end);
    assert(buffer@ == c_string_bytes(bytes));
    match string_from_utf8(buffer) {
        Some(path) => {
            proof {
                encode_utf8_decode_utf8(path@);
            }
            Some(ItemInstallInfo { path, size, timestamp: timestamp as u64 })
        },
        None => None,
    }
}

} // verus!
