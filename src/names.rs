use vstd::prelude::*;
use vstd::string::StrSliceExecFns;
use vstd::string::StringExecFns;

use crate::error::FetchError;

verus! {

/// How many datasets a run downloads.
pub const RESOURCE_COUNT: usize = 4;

/// The URL of dataset `i`, in download order.
pub open spec fn link_spec(i: int) -> Seq<char> {
    if i == 0 {
        "http://yann.lecun.com/exdb/mnist/train-images-idx3-ubyte.gz"@
    } else if i == 1 {
        "http://yann.lecun.com/exdb/mnist/train-labels-idx1-ubyte.gz"@
    } else if i == 2 {
        "http://yann.lecun.com/exdb/mnist/t10k-images-idx3-ubyte.gz"@
    } else {
        "http://yann.lecun.com/exdb/mnist/t10k-labels-idx1-ubyte.gz"@
    }
}

/// The URL of dataset `i`.
pub fn data_link(i: usize) -> (r: &'static str)
    requires
        i < RESOURCE_COUNT,
    ensures
        r@ == link_spec(i as int),
{
    if i == 0 {
        "http://yann.lecun.com/exdb/mnist/train-images-idx3-ubyte.gz"
    } else if i == 1 {
        "http://yann.lecun.com/exdb/mnist/train-labels-idx1-ubyte.gz"
    } else if i == 2 {
        "http://yann.lecun.com/exdb/mnist/t10k-images-idx3-ubyte.gz"
    } else {
        "http://yann.lecun.com/exdb/mnist/t10k-labels-idx1-ubyte.gz"
    }
}

/// `name` without a trailing `.gz`; other names are left as they are.
pub open spec fn strip_gz_spec(name: Seq<char>) -> Seq<char> {
    if name.len() >= 3 && name.subrange(name.len() - 3, name.len() as int) == seq!['.', 'g', 'z'] {
        name.subrange(0, name.len() - 3)
    } else {
        name
    }
}

/// The path of `name` inside directory `dir`: a `/` goes between them unless
/// `dir` is empty or already ends with one.
pub open spec fn join_spec(dir: Seq<char>, name: Seq<char>) -> Seq<char> {
    if dir.len() == 0 {
        name
    } else if dir.last() == '/' {
        dir + name
    } else {
        dir + seq!['/'] + name
    }
}

/// Removes a trailing `.gz` from a file name.
pub fn strip_gz(name: &str) -> (r: String)
    ensures
        r@ == strip_gz_spec(name@),
{
    let n = name.unicode_len();
    if n >= 3 && name.get_char(n - 3) == '.' && name.get_char(n - 2) == 'g' && name.get_char(n - 1)
        == 'z' {
        assert(name@.subrange(n - 3, n as int) =~= seq!['.', 'g', 'z']);
        name.substring_char(0, n - 3).to_owned()
    } else {
        proof {
            if n >= 3 && name@.subrange(n - 3, n as int) == seq!['.', 'g', 'z'] {
                assert(name@.subrange(n - 3, n as int)[0] == name@[n - 3]);
                assert(name@.subrange(n - 3, n as int)[1] == name@[n - 2]);
                assert(name@.subrange(n - 3, n as int)[2] == name@[n - 1]);
            }
        }
        name.to_owned()
    }
}

/// The path of file `name` inside directory `dir`.
pub fn join_path(dir: &str, name: &str) -> (r: String)
    ensures
        r@ == join_spec(dir@, name@),
{
    let n = dir.unicode_len();
    if n == 0 {
        name.to_owned()
    } else if dir.get_char(n - 1) == '/' {
        dir.to_owned().concat(name)
    } else {
        proof {
            reveal_strlit("/");
        }
        assert("/"@ =~= seq!['/']);
        dir.to_owned().concat("/").concat(name)
    }
}

} // verus!
