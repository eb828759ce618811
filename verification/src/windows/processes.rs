//! Finding the game among the running processes and its loaded modules.

use vstd::prelude::*;
use vstd::utf8::encode_utf8;

verus! {

/// The exit code that a process reports while it is still running.
pub const STILL_ACTIVE: u32 = 0x103;

/// The lower-case form of an ASCII letter; any other byte unchanged.
pub open spec fn ascii_lower(b: u8) -> u8 {
    if 65 <= b <= 90 {
        (b + 32) as u8
    } else {
        b
    }
}

/// Whether two byte strings are equal when ASCII letters are compared
/// without regard to case.
pub open spec fn equal_ignoring_ascii_case(x: Seq<u8>, y: Seq<u8>) -> bool {
    x.len() == y.len() && forall|i: int| 0 <= i < x.len() ==> ascii_lower(x[i]) == ascii_lower(y[i])
}

/// Whether `a` and `b` hold the same UTF-8 bytes, ASCII letters compared
/// without regard to case.
pub fn eq_ignore_ascii_case(a: &str, b: &str) -> (equal: bool)
    ensures
        equal == equal_ignoring_ascii_case(encode_utf8(a@), encode_utf8(b@)),
{
    let x = a.as_bytes();
    let y = b.as_bytes();
    if x.len() != y.len() {
        return false;
    }
    let n = x.len();
    let mut i: usize = 0;
    while i < n
        invariant
            0 <= i <= n,
            n == x@.len(),
            n == y@.len(),
            x@ == encode_utf8(a@),
            y@ == encode_utf8(b@),
            forall|j: int| 0 <= j < i ==> ascii_lower(x@[j]) == ascii_lower(y@[j]),
        decreases n - i,
    {
        let p = x[i];
        let q = y[i];
        let lp = if 65 <= p && p <= 90 { p + 32 } else { p };
        let lq = if 65 <= q && q <= 90 { q + 32 } else { q };
        if lp != lq {
            return false;
        }
        i = i + 1;
    }
    true
}

/// The process id of the first process, in snapshot order, whose executable
/// is named exactly `target`; `processes` holds (executable name, process id)
/// pairs.
pub fn get_process_id(processes: &Vec<(String, u32)>, target: &str) -> (pid: Option<u32>)
    ensures
        match pid {
            Some(p) => exists|i: int|
                0 <= i < processes@.len() && processes@[i].0@ == target@ && processes@[i].1 == p
                    && forall|j: int| 0 <= j < i ==> processes@[j].0@ != target@,
            None => forall|i: int| 0 <= i < processes@.len() ==> processes@[i].0@ != target@,
        },
{
    let wanted = target.to_owned();
    let n = processes.len();
    let mut i: usize = 0;
    while i < n
        invariant
            0 <= i <= n,
            n == processes@.len(),
            wanted@ == target@,
            forall|j: int| 0 <= j < i ==> processes@[j].0@ != target@,
        decreases n - i,
    {
        if processes[i].0 == wanted {
            assert(processes@[i as int].0@ == target@);
            return Some(processes[i].1);
        }
        i = i + 1;
    }
    None
}

/// The base address of the first module, in snapshot order, whose name is
/// `target` without regard to ASCII case; `modules` holds (module name, base
/// address) pairs.
pub fn get_module_address(modules: &Vec<(String, usize)>, target: &str) -> (addr: Option<usize>)
    ensures
        match addr {
            Some(a) => exists|i: int|
                0 <= i < modules@.len() && equal_ignoring_ascii_case(
                    encode_utf8(modules@[i].0@),
                    encode_utf8(target@),
                ) && modules@[i].1 == a && forall|j: int|
                    0 <= j < i ==> !equal_ignoring_ascii_case(
                        encode_utf8(modules@[j].0@),
                        encode_utf8(target@),
                    ),
            None => forall|i: int|
                0 <= i < modules@.len() ==> !equal_ignoring_ascii_case(
                    encode_utf8(modules@[i].0@),
                    encode_utf8(target@),
                ),
        },
{
    let n = modules.len();
    let mut i: usize = 0;
    while i < n
        invariant
            0 <= i <= n,
            n == modules@.len(),
            forall|j: int|
                0 <= j < i ==> !equal_ignoring_ascii_case(
                    encode_utf8(modules@[j].0@),
                    encode_utf8(target@),
                ),
        decreases n - i,
    {
        if eq_ignore_ascii_case(modules[i].0.as_str(), target) {
            assert(equal_ignoring_ascii_case(encode_utf8(modules@[i as int].0@), encode_utf8(target@)));
            return Some(modules[i].1);
        }
        i = i + 1;
    }
    None
}

/// Whether a process is still running, given the exit code that was read
/// for it; a failed read counts as not running.
pub fn is_process_active(exit_code: Option<u32>) -> (active: bool)
    ensures
        active == (exit_code == Some(STILL_ACTIVE)),
{
    match exit_code {
        Some(code) => code == STILL_ACTIVE,
        None => false,
    }
}

/// Holds of the (owner process id, thread id) pairs of the process
/// `process_id`.
pub open spec fn owned_by(process_id: u32) -> spec_fn((u32, u32)) -> bool {
    |t: (u32, u32)| t.0 == process_id
}

/// The thread id of an (owner process id, thread id) pair.
pub open spec fn thread_id_of(t: (u32, u32)) -> u32 {
    t.1
}

/// The ids of every thread of the process `process_id`, in snapshot order:
/// the threads that pausing the process suspends. `threads` holds (owner
/// process id, thread id) pairs.
pub fn threads_of(threads: &Vec<(u32, u32)>, process_id: u32) -> (ids: Vec<u32>)
    ensures
        ids@ == threads@.filter(owned_by(process_id)).map_values(|t: (u32, u32)| thread_id_of(t)),
{
    let n = threads.len();
    let mut ids: Vec<u32> = Vec::new();
    let mut i: usize = 0;
    while i < n
        invariant
            0 <= i <= n,
            n == threads@.len(),
            ids@ == threads@.take(i as int).filter(owned_by(process_id)).map_values(
                |t: (u32, u32)| thread_id_of(t),
            ),
        decreases n - i,
    {
        proof {
            threads@.take(i as int).lemma_filter_push(threads@[i as int], owned_by(process_id));
            assert(threads@.take(i as int).push(threads@[i as int]) =~= threads@.take(i + 1));
        }
        let entry = threads[i];
        if entry.0 == process_id {
            ids.push(entry.1);
        }
        proof {
            let before = threads@.take(i as int).filter(owned_by(process_id));
            if entry.0 == process_id {
                assert(before.push(entry).map_values(|t: (u32, u32)| thread_id_of(t))
                    =~= before.map_values(|t: (u32, u32)| thread_id_of(t)).push(entry.1));
            }
        }
        i = i + 1;
    }
    proof {
        assert(threads@.take(n as int) =~= threads@);
    }
    ids
}

} // verus!
