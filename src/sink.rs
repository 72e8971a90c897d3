//! Which file a record goes to, and when the active file rotates out.

use std::fmt::Write;
use vstd::prelude::*;

verus! {

use crate::protocol::str_eq;

/// An instant in UTC: seconds and nanoseconds since the Unix epoch.
#[derive(Clone, Copy, Debug, PartialEq, Eq, Structural)]
pub struct Instant {
    pub secs: i64,
    pub nanos: u32,
}

/// The text that a strftime-style template renders for an instant in UTC,
/// or `None` where the template is invalid or the instant out of range.
pub uninterp spec fn utc_format_of(template: Seq<char>, secs: int, nanos: int) -> Option<Seq<char>>;

/// Relies on chrono's `DateTime::from_timestamp` and `DateTime::format`,
/// written out through `fmt::Write`, which reports an invalid template.
#[verifier::external_body]
fn format_utc(template: &str, at: Instant) -> (r: Option<String>)
    ensures
        match r {
            Some(t) => utc_format_of(template@, at.secs as int, at.nanos as int) == Some(t@),
            None => utc_format_of(template@, at.secs as int, at.nanos as int).is_none(),
        },
{
    let dt = chrono::DateTime::from_timestamp(at.secs, at.nanos)?;
    let mut out = String::new();
    write!(out, "{}", dt.format(template)).ok().map(|_| out)
}

/// The path of a file named `name` in directory `dir`.
pub open spec fn path_in(dir: Seq<char>, name: Seq<char>) -> Seq<char> {
    dir + seq!['/'] + name
}

/// The path of the file that records made at `at` go to.
pub open spec fn path_for_spec(dir: Seq<char>, template: Seq<char>, at: Instant) -> Option<Seq<char>> {
    match utc_format_of(template, at.secs as int, at.nanos as int) {
        Some(name) => Some(path_in(dir, name)),
        None => None,
    }
}

/// The path of the file for instant `at`: the directory, a separator, and
/// the template rendered for `at`. `None` where the template cannot be
/// rendered.
pub fn path_for(dir: &str, template: &str, at: Instant) -> (r: Option<String>)
    ensures
        match r {
            Some(p) => path_for_spec(dir@, template@, at) == Some(p@),
            None => path_for_spec(dir@, template@, at).is_none(),
        },
{
    match format_utc(template, at) {
        Some(name) => {
            let mut p = dir.to_owned();
            p.append("/");
            p.append(name.as_str());
            proof {
                reveal_strlit("/");
                assert(p@ =~= path_in(dir@, name@));
            }
            Some(p)
        },
        None => None,
    }
}

/// Two instants that render to the same name share a file; two that render
/// to different names go to different files.
pub proof fn lemma_path_buckets(dir: Seq<char>, template: Seq<char>, a: Instant, b: Instant)
    requires
        utc_format_of(template, a.secs as int, a.nanos as int).is_some(),
        utc_format_of(template, b.secs as int, b.nanos as int).is_some(),
    ensures
        (path_for_spec(dir, template, a) == path_for_spec(dir, template, b)) <==> (
        utc_format_of(template, a.secs as int, a.nanos as int) == utc_format_of(
            template,
            b.secs as int,
            b.nanos as int,
        )),
{
    let na = utc_format_of(template, a.secs as int, a.nanos as int).unwrap();
    let nb = utc_format_of(template, b.secs as int, b.nanos as int).unwrap();
    if path_in(dir, na) == path_in(dir, nb) {
        let k: int = dir.len() as int + 1;
        assert(na =~= path_in(dir, na).subrange(k, path_in(dir, na).len() as int));
        assert(nb =~= path_in(dir, nb).subrange(k, path_in(dir, nb).len() as int));
    }
}

/// How an output file is opened: appended to where it exists, created where
/// it does not. Neither truncates.
#[derive(Clone, Copy, Debug, PartialEq, Eq, Structural)]
pub enum OpenMode {
    Append,
    Create,
}

/// The mode for a file, given whether it exists.
pub fn open_mode(exists: bool) -> (r: OpenMode)
    ensures
        exists ==> r == OpenMode::Append,
        !exists ==> r == OpenMode::Create,
{
    if exists {
        OpenMode::Append
    } else {
        OpenMode::Create
    }
}

/// A change of active file: `archive` is handed to the archiver once
/// `open` is ready to be written.
pub struct Rotation {
    pub archive: String,
    pub open: String,
}

/// The path of the active output file.
pub struct RotatingSink {
    pub current: String,
}

/// The active path after the sink sees `path`, and the rotation it asks for.
pub open spec fn observe_spec(current: Seq<char>, path: Seq<char>) -> (Seq<char>, Option<(Seq<char>, Seq<char>)>) {
    if path == current {
        (current, None)
    } else {
        (path, Some((current, path)))
    }
}

pub open spec fn rotation_view(r: Option<Rotation>) -> Option<(Seq<char>, Seq<char>)> {
    match r {
        Some(x) => Some((x.archive@, x.open@)),
        None => None,
    }
}

impl RotatingSink {
    /// A sink whose active file is `path`.
    pub fn new(path: String) -> (r: RotatingSink)
        ensures
            r.current@ == path@,
    {
        RotatingSink { current: path }
    }

    /// Sees the path for the current instant. Where it differs from the
    /// active one, the sink switches to it and asks for the old path to be
    /// archived once the new one is open.
    pub fn observe(&mut self, path: String) -> (r: Option<Rotation>)
        ensures
            (final(self).current@, rotation_view(r)) == observe_spec(old(self).current@, path@),
    {
        if str_eq(path.as_str(), self.current.as_str()) {
            None
        } else {
            let previous = self.current.clone();
            self.current = path.clone();
            Some(Rotation { archive: previous, open: path })
        }
    }
}

/// Of two paths seen one after the other, the second different from the
/// first, the second asks for exactly one archival, of the first, and opens
/// the second.
pub proof fn lemma_rotation_between_calls(start: Seq<char>, first: Seq<char>, second: Seq<char>)
    requires
        first != second,
    ensures
        observe_spec(observe_spec(start, first).0, second) == (second, Some((first, second))),
        observe_spec(start, first).1 == (if start == first {
            None
        } else {
            Some((start, first))
        }),
{
}

} // verus!
