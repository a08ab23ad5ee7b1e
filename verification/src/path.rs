//! Host file-system paths as the bytes that name them.
use vstd::prelude::*;
use vstd::slice::*;
use vstd::utf8::*;

verus! {

/// The byte that separates path components.
pub const SEPARATOR: u8 = 47;

/// A path on the host: the exact bytes of its name, which need not be UTF-8.
#[derive(Clone, Debug, PartialEq, Eq)]
pub struct HostPath {
    bytes: Vec<u8>,
}

impl View for HostPath {
    type V = Seq<u8>;

    closed spec fn view(&self) -> Seq<u8> {
        self.bytes@
    }
}

/// The path that names `component` inside `base`. An absolute component stands alone.
pub open spec fn path_join(base: Seq<u8>, component: Seq<u8>) -> Seq<u8> {
    if component.len() > 0 && component[0] == SEPARATOR {
        component
    } else if base.len() == 0 || base.last() == SEPARATOR {
        base + component
    } else {
        base.push(SEPARATOR) + component
    }
}

/// The characters that byte strings are shown as: what
/// `String::from_utf8_lossy` makes of the bytes.
pub uninterp spec fn shown(bytes: Seq<u8>) -> Seq<char>;

/// `String::from_utf8_lossy`: the bytes as characters, with a replacement
/// character where they are not UTF-8. Bytes that are UTF-8 are kept.
#[verifier::external_body]
fn lossy_text(bytes: &[u8]) -> (text: String)
    ensures
        text@ == shown(bytes@),
        valid_utf8(bytes@) ==> encode_utf8(text@) == bytes@,
{
    String::from_utf8_lossy(bytes).into_owned()
}

impl HostPath {
    /// The path named by the given bytes.
    pub fn from_bytes(bytes: Vec<u8>) -> (path: HostPath)
        ensures
            path@ == bytes@,
    {
        HostPath { bytes }
    }

    /// The path named by the given text.
    pub fn from_text(text: &str) -> (path: HostPath)
        ensures
            path@ == encode_utf8(text@),
    {
        HostPath { bytes: slice_to_vec(text.as_bytes()) }
    }

    /// The bytes that name this path.
    pub fn as_bytes(&self) -> (bytes: &[u8])
        ensures
            bytes@ == self@,
    {
        self.bytes.as_slice()
    }

    /// A path with the same name.
    pub fn duplicate(&self) -> (path: HostPath)
        ensures
            path@ == self@,
    {
        HostPath { bytes: slice_to_vec(self.bytes.as_slice()) }
    }

    /// The path as text for people to read.
    pub fn display(&self) -> (text: String)
        ensures
            text@ == shown(self@),
            valid_utf8(self@) ==> encode_utf8(text@) == self@,
    {
        lossy_text(self.bytes.as_slice())
    }

    /// The path that names `component` inside this directory.
    pub fn join(&self, component: &str) -> (path: HostPath)
        ensures
            path@ == path_join(self@, encode_utf8(component@)),
    {
        let suffix = component.as_bytes();
        let mut bytes: Vec<u8> = Vec::new();
        if !(suffix.len() > 0 && suffix[0] == SEPARATOR) {
            bytes.extend_from_slice(self.bytes.as_slice());
            if bytes.len() > 0 && bytes[bytes.len() - 1] != SEPARATOR {
                bytes.push(SEPARATOR);
            }
        }
        bytes.extend_from_slice(suffix);
        assert(bytes@ =~= path_join(self@, encode_utf8(component@)));
        HostPath { bytes }
    }
}

/// A name that starts with a slash stands alone. Any other name comes last, behind
/// the whole directory, with exactly one slash between the two; an empty directory
/// adds nothing.
pub proof fn law_names_are_joined_by_one_slash(base: Seq<u8>, component: Seq<u8>)
    ensures
        ({
            let path = path_join(base, component);
            let from = path.len() - component.len();
            &&& component.len() > 0 && component[0] == 47 ==> path == component
            &&& !(component.len() > 0 && component[0] == 47) ==> {
                &&& from >= 0
                &&& path.skip(from) == component
                &&& base.len() == 0 ==> from == 0
                &&& base.len() > 0 ==> path[from - 1] == 47 && base.is_prefix_of(path)
                &&& base.len() > 0 && base.last() == 47 ==> from == base.len()
                &&& base.len() > 0 && base.last() != 47 ==> from == base.len() + 1
            }
        }),
{
    let path = path_join(base, component);
    if !(component.len() > 0 && component[0] == 47) {
        let from = path.len() - component.len();
        assert(path.skip(from) =~= component);
        if base.len() > 0 {
            assert(base =~= path.subrange(0, base.len() as int));
        }
    }
}

/// In one directory, different names lead to different paths.
pub proof fn law_names_are_told_apart(base: Seq<u8>, one: Seq<u8>, other: Seq<u8>)
    requires
        one.len() > 0 ==> one[0] != 47,
        other.len() > 0 ==> other[0] != 47,
        path_join(base, one) == path_join(base, other),
    ensures
        one == other,
{
    law_names_are_joined_by_one_slash(base, one);
    law_names_are_joined_by_one_slash(base, other);
}

/// A path keeps the bytes and the text that it was made of, and so does its copy;
/// joined to a name, it is the path with that name in it.
pub proof fn law_paths_keep_their_names(
    bytes: Vec<u8>,
    made: HostPath,
    copy: HostPath,
    seen: &[u8],
    name: &str,
    named: HostPath,
    inner: HostPath,
)
    requires
        call_ensures(HostPath::from_bytes, (bytes,), made),
        call_ensures(HostPath::duplicate, (&made,), copy),
        call_ensures(HostPath::as_bytes, (&copy,), seen),
        call_ensures(HostPath::from_text, (name,), named),
        call_ensures(HostPath::join, (&copy, name), inner),
    ensures
        seen@ == bytes@,
        named@ == encode_utf8(name@),
        !(named@.len() > 0 && named@[0] == 47) ==> inner@.skip(inner@.len() - named@.len())
            == named@ && bytes@.is_prefix_of(inner@),
        named@.len() > 0 && named@[0] == 47 ==> inner@ == named@,
{
    law_names_are_joined_by_one_slash(bytes@, encode_utf8(name@));
    if bytes@.len() == 0 {
        assert(bytes@ =~= inner@.subrange(0, 0));
    }
}

/// A path is shown by its own characters wherever its bytes are UTF-8.
pub proof fn law_paths_are_shown(path: HostPath, text: String)
    requires
        call_ensures(HostPath::display, (&path,), text),
    ensures
        text@ == shown(path@),
        valid_utf8(path@) ==> encode_utf8(text@) == path@,
{
}

} // verus!
