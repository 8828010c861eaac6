//! The ephemeral initialization script: a value describing the temporary file
//! that carries the init script into the container.
//!
//! The value is pure: where it is written, and what it holds. The driver
//! performs the actual write when the lifecycle machine asks for it with
//! [`crate::lifecycle::Action::WriteScript`], and the machine guarantees a
//! matching [`crate::lifecycle::Action::RemoveScript`] on every exit path.

use vstd::prelude::*;
use vstd::string::StrSliceExecFns;
use vstd::string::StringExecFns;

verus! {

/// ASCII whitespace, as trimmed off the ends of the init script body.
pub open spec fn is_space(c: char) -> bool {
    c == ' ' || c == '\t' || c == '\n' || c == '\r'
}

/// The sequence with leading whitespace removed.
pub open spec fn trim_front(s: Seq<char>) -> Seq<char>
    decreases s.len(),
{
    if s.len() > 0 && is_space(s[0]) {
        trim_front(s.drop_first())
    } else {
        s
    }
}

/// The sequence with trailing whitespace removed.
pub open spec fn trim_back(s: Seq<char>) -> Seq<char>
    decreases s.len(),
{
    if s.len() > 0 && is_space(s[s.len() - 1]) {
        trim_back(s.drop_last())
    } else {
        s
    }
}

/// The sequence with whitespace removed from both ends.
pub open spec fn spec_trimmed(s: Seq<char>) -> Seq<char> {
    trim_back(trim_front(s))
}

fn space_ok(c: char) -> (r: bool)
    ensures
        r == is_space(c),
{
    c == ' ' || c == '\t' || c == '\n' || c == '\r'
}

/// Removes ASCII whitespace from both ends of a string slice.
pub fn trimmed(s: &str) -> (r: &str)
    ensures
        r@ == spec_trimmed(s@),
{
    let n = s.unicode_len();
    proof {
        assert(s@.subrange(0, n as int) =~= s@);
    }
    let mut a: usize = 0;
    while a < n && space_ok(s.get_char(a))
        invariant
            n == s@.len(),
            0 <= a <= n,
            trim_front(s@) == trim_front(s@.subrange(a as int, n as int)),
        decreases n - a,
    {
        proof {
            let cur = s@.subrange(a as int, n as int);
            assert(cur.len() > 0 && is_space(cur[0]));
            assert(cur.drop_first() =~= s@.subrange(a as int + 1, n as int));
        }
        a = a + 1;
    }
    proof {
        let cur = s@.subrange(a as int, n as int);
        assert(trim_front(cur) == cur);
        assert(trim_front(s@) == s@.subrange(a as int, n as int));
    }
    let mut b: usize = n;
    while b > a && space_ok(s.get_char(b - 1))
        invariant
            n == s@.len(),
            0 <= a <= b <= n,
            trim_front(s@) == s@.subrange(a as int, n as int),
            trim_back(s@.subrange(a as int, n as int)) == trim_back(
                s@.subrange(a as int, b as int),
            ),
        decreases b,
    {
        proof {
            let cur = s@.subrange(a as int, b as int);
            assert(cur.len() > 0 && is_space(cur[cur.len() - 1]));
            assert(cur.drop_last() =~= s@.subrange(a as int, b as int - 1));
        }
        b = b - 1;
    }
    proof {
        let cur = s@.subrange(a as int, b as int);
        assert(trim_back(cur) == cur);
        assert(spec_trimmed(s@) == s@.subrange(a as int, b as int));
    }
    s.substring_char(a, b)
}

/// The temporary script file as a value: where it lives and what it holds.
/// The driver writes `content` to `path` with executable permission, copies
/// it into the container, and deletes it when the lifecycle machine says so.
#[derive(Debug)]
pub struct TempScript {
    /// Where the file lives on the host.
    pub path: String,
    /// The full script text: the trimmed init body under a shell shebang.
    pub content: String,
}

impl TempScript {
    /// Describes the script file for one initialization run: the file sits in
    /// `dir` under a name carrying `tag` (the invoking process's identity,
    /// bounding collisions between concurrent runs), and holds the trimmed
    /// `body` wrapped in a shell shebang line with a final newline.
    pub fn new(dir: &str, tag: &str, body: &str) -> (t: TempScript)
        ensures
            t.path@ == dir@ + "/devspace-init-"@ + tag@ + ".sh"@,
            t.content@ == "#!/bin/sh\n"@ + spec_trimmed(body@) + "\n"@,
    {
        let path = dir.to_owned().concat("/devspace-init-").concat(tag).concat(".sh");
        let content = "#!/bin/sh\n".to_owned().concat(trimmed(body)).concat("\n");
        TempScript { path, content }
    }

    /// Where the file lives on the host.
    pub fn path(&self) -> (r: &String)
        ensures
            r@ == self.path@,
    {
        &self.path
    }

    /// The full script text.
    pub fn content(&self) -> (r: &String)
        ensures
            r@ == self.content@,
    {
        &self.content
    }
}

impl Clone for TempScript {
    /// The copy describes the same file.
    fn clone(&self) -> (r: Self)
        ensures
            r.path@ == self.path@,
            r.content@ == self.content@,
    {
        TempScript { path: self.path.clone(), content: self.content.clone() }
    }
}

} // verus!
