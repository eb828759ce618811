//! Looking a function up in a module's export table, as read from another
//! process: the names, the ordinal of each name, and the function offsets.

use crate::windows::processes::{eq_ignore_ascii_case, equal_ignoring_ascii_case};
use vstd::prelude::*;
use vstd::utf8::{decode_utf8, encode_utf8, valid_utf8};

verus! {

/// The position of the first NUL byte of `s`, or its length when it holds
/// none.
pub open spec fn nul_position(s: Seq<u8>) -> int {
    if exists|i: int| 0 <= i < s.len() && s[i] == 0 {
        choose|i: int| 0 <= i < s.len() && s[i] == 0 && forall|j: int| 0 <= j < i ==> s[j] != 0
    } else {
        s.len() as int
    }
}

/// The C string held in `s`: its bytes before the first NUL.
pub open spec fn c_string(s: Seq<u8>) -> Seq<u8> {
    s.take(nul_position(s))
}

/// The string that `String::from_utf8_lossy` makes of `bytes` that are not
/// valid UTF-8.
pub uninterp spec fn lossy_utf8_of_invalid(bytes: Seq<u8>) -> Seq<char>;

/// The string that `String::from_utf8_lossy` makes of `bytes`: the string
/// they encode when they are valid UTF-8.
pub open spec fn lossy_utf8(bytes: Seq<u8>) -> Seq<char> {
    if valid_utf8(bytes) {
        decode_utf8(bytes)
    } else {
        lossy_utf8_of_invalid(bytes)
    }
}

/// Calls `String::from_utf8_lossy` and takes the string out of the result.
/// Claimed: for bytes that are valid UTF-8 the result is the string they
/// encode, as the documentation states; for other bytes it is a function of
/// the bytes alone, named `lossy_utf8_of_invalid`. What that string is (each
/// invalid sequence replaced by U+FFFD) is not stated.
#[verifier::external_body]
fn utf8_lossy(bytes: &[u8]) -> (s: String)
    ensures
        s@ == (if valid_utf8(bytes@) {
            decode_utf8(bytes@)
        } else {
            lossy_utf8_of_invalid(bytes@)
        }),
{
    String::from_utf8_lossy(bytes).into_owned()
}

/// The bytes of the C string held in `buf`: those before the first NUL.
pub fn c_string_bytes(buf: &Vec<u8>) -> (name: Vec<u8>)
    ensures
        name@ == c_string(buf@),
{
    let n = buf.len();
    let mut k: usize = 0;
    while k < n && buf[k] != 0
        invariant
            0 <= k <= n,
            n == buf@.len(),
            forall|j: int| 0 <= j < k ==> buf@[j] != 0,
        decreases n - k,
    {
        k = k + 1;
    }
    proof {
        if k < n {
            let i = choose|i: int|
                0 <= i < buf@.len() && buf@[i] == 0 && forall|j: int| 0 <= j < i ==> buf@[j] != 0;
            assert(i == k);
        }
        assert(nul_position(buf@) == k);
    }
    let mut name: Vec<u8> = Vec::new();
    let mut i: usize = 0;
    while i < k
        invariant
            0 <= i <= k <= n,
            n == buf@.len(),
            name@ == buf@.take(i as int),
        decreases k - i,
    {
        name.push(buf[i]);
        i = i + 1;
        assert(name@ =~= buf@.take(i as int));
    }
    name
}

/// Whether the export name read into `buf` is `target`: the C string in
/// the buffer, decoded as `String::from_utf8_lossy` decodes it, equals
/// `target` with ASCII letters compared without regard to case.
pub open spec fn export_name_matches(buf: Seq<u8>, target: Seq<char>) -> bool {
    equal_ignoring_ascii_case(encode_utf8(lossy_utf8(c_string(buf))), encode_utf8(target))
}

/// For a name that is valid UTF-8, the match is a comparison of its raw
/// bytes with the target's.
pub proof fn lemma_valid_names_match_by_bytes(buf: Seq<u8>, target: Seq<char>)
    requires
        valid_utf8(c_string(buf)),
    ensures
        export_name_matches(buf, target) == equal_ignoring_ascii_case(c_string(buf), encode_utf8(target)),
{
    vstd::utf8::decode_utf8_encode_utf8(c_string(buf));
}

/// The position of the first export name that is `fn_name`, skipping the
/// names that could not be read (`None`).
pub fn find_export_index(names: &Vec<Option<Vec<u8>>>, fn_name: &str) -> (index: Option<usize>)
    ensures
        match index {
            Some(i) => {
                &&& i < names@.len()
                &&& names@[i as int] matches Some(buf) && export_name_matches(buf@, fn_name@)
                &&& forall|j: int|
                    0 <= j < i ==> !(#[trigger] names@[j] matches Some(b) && export_name_matches(
                        b@,
                        fn_name@,
                    ))
            },
            None => forall|j: int|
                0 <= j < names@.len() ==> !(#[trigger] names@[j] matches Some(b)
                    && export_name_matches(b@, fn_name@)),
        },
{
    let n = names.len();
    let mut i: usize = 0;
    while i < n
        invariant
            0 <= i <= n,
            n == names@.len(),
            forall|j: int|
                0 <= j < i ==> !(#[trigger] names@[j] matches Some(b) && export_name_matches(
                    b@,
                    fn_name@,
                )),
        decreases n - i,
    {
        match &names[i] {
            Some(buf) => {
                let name_bytes = c_string_bytes(buf);
                let name = utf8_lossy(name_bytes.as_slice());
                if eq_ignore_ascii_case(name.as_str(), fn_name) {
                    return Some(i);
                }
            },
            None => {},
        }
        i = i + 1;
    }
    None
}

/// The address of the function that export name `index` stands for: the
/// module's base address plus the offset of the function whose number is
/// the name's ordinal.
pub fn export_address(module_base_addr: usize, ordinals: &Vec<u16>, functions: &Vec<u32>, index: usize) -> (addr: usize)
    requires
        index < ordinals@.len(),
        ordinals@[index as int] < functions@.len(),
        module_base_addr + functions@[ordinals@[index as int] as int] <= usize::MAX,
    ensures
        addr == module_base_addr + functions@[ordinals@[index as int] as int],
{
    let ordinal = ordinals[index] as usize;
    let offset = functions[ordinal] as usize;
    module_base_addr + offset
}

} // verus!
