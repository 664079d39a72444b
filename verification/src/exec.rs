//! Replacing the process image: gathering the program's path, arguments and
//! environment from what was read out of user memory.

use vstd::prelude::*;
use crate::error::SysError;

verus! {

/// What the loader is started with.
#[derive(Debug)]
pub struct ExecImage {
    /// The program to run.
    pub path: String,
    /// Its arguments, in order.
    pub args: Vec<String>,
    /// Its environment, in order.
    pub envs: Vec<String>,
}

/// Every string of the vector could be read.
pub open spec fn all_readable(v: Seq<Option<String>>) -> bool {
    forall|i: int| 0 <= i < v.len() ==> (#[trigger] v[i]) is Some
}

/// The vector itself and every string in it could be read.
pub open spec fn vector_readable(v: Option<Vec<Option<String>>>) -> bool {
    v matches Some(items) && all_readable(items@)
}

/// `out` holds the strings of `v`, in order.
pub open spec fn holds_strings(out: Seq<String>, v: Seq<Option<String>>) -> bool {
    &&& out.len() == v.len()
    &&& forall|i: int| 0 <= i < v.len() ==> (#[trigger] out[i])@ == v[i].unwrap()@
}

/// Copies the strings of a vector, or finds one that could not be read.
fn collect_strings(v: &Vec<Option<String>>) -> (r: Option<Vec<String>>)
    ensures
        r is Some <==> all_readable(v@),
        r matches Some(out) ==> holds_strings(out@, v@),
{
    let n: usize = v.len();
    let mut out: Vec<String> = Vec::new();
    let mut i: usize = 0;
    while i < n
        invariant
            0 <= i <= n,
            n == v@.len(),
            out@.len() == i,
            forall|j: int| 0 <= j < i ==> (#[trigger] v@[j]) is Some,
            forall|j: int| 0 <= j < i ==> (#[trigger] out@[j])@ == v@[j].unwrap()@,
        decreases n - i,
    {
        match &v[i] {
            Some(s) => {
                out.push(s.clone());
            },
            None => {
                return None;
            },
        }
        i += 1;
    }
    Some(out)
}

/// Prepares the replacement of the caller's image.
///
/// Each argument is what the memory accessor read for one pointer of the
/// call: `None` for a pointer that could not be read or that led to no
/// proper string, at the vector's level or at one of its entries. One such
/// pointer anywhere fails the whole call with a bad address, and nothing is
/// handed to the loader. Otherwise the loader gets a copy of the path and of
/// every argument and environment string, in their order.
pub fn sys_execve(
    path: &Option<String>,
    argv: &Option<Vec<Option<String>>>,
    envp: &Option<Vec<Option<String>>>,
) -> (r: Result<ExecImage, SysError>)
    ensures
        r is Ok <==> *path is Some && vector_readable(*argv) && vector_readable(*envp),
        r matches Err(e) ==> e == SysError::BadAddress,
        r matches Ok(image) ==> {
            &&& image.path@ == path.unwrap()@
            &&& holds_strings(image.args@, argv.unwrap()@)
            &&& holds_strings(image.envs@, envp.unwrap()@)
        },
{
    let path: String = match path {
        Some(p) => p.clone(),
        None => {
            return Err(SysError::BadAddress);
        },
    };
    let args: Vec<String> = match argv {
        Some(v) => match collect_strings(v) {
            Some(out) => out,
            None => {
                return Err(SysError::BadAddress);
            },
        },
        None => {
            return Err(SysError::BadAddress);
        },
    };
    let envs: Vec<String> = match envp {
        Some(v) => match collect_strings(v) {
            Some(out) => out,
            None => {
                return Err(SysError::BadAddress);
            },
        },
        None => {
            return Err(SysError::BadAddress);
        },
    };
    Ok(ExecImage { path, args, envs })
}

/// What `execve` returns when the loader could not start the image: the
/// operation is not implemented, and the caller runs on as before.
pub fn loader_rejected() -> (r: Result<isize, SysError>)
    ensures
        r == Err::<isize, SysError>(SysError::NotImplemented),
{
    Err(SysError::NotImplemented)
}

} // verus!
