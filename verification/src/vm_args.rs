//! `KEY=VALUE` arguments of a raw VM command.
use vstd::prelude::*;
use vstd::string::*;
use vstd::utf8::*;

use crate::path::HostPath;
use crate::text::{characters, lemma_first_index_unique, split_at_equals, split_pair};

verus! {

/// A writable host directory exposed to the guest under a tag.
#[derive(Clone, Debug, PartialEq, Eq)]
pub struct WritableShare {
    pub tag: String,
    pub directory: HostPath,
}

/// A block image attached to the guest under an identifier.
#[derive(Clone, Debug, PartialEq, Eq)]
pub struct ReadOnlyDisk {
    pub id: String,
    pub image: HostPath,
}

/// An environment entry of the guest's initial process.
#[derive(Clone, Debug, PartialEq, Eq)]
pub struct GuestEnvironment {
    pub name: String,
    pub value: String,
}

/// Why a text is not a writable share.
#[derive(Clone, Copy, Debug, PartialEq, Eq, Structural)]
pub enum WritableShareParseError {
    MissingSeparator,
    InvalidTag,
    EmptyDirectory,
}

/// Why a text is not an environment entry.
#[derive(Clone, Copy, Debug, PartialEq, Eq, Structural)]
pub enum GuestEnvironmentParseError {
    MissingSeparator,
    InvalidName,
}

impl WritableShareParseError {
    /// Describes the error.
    pub fn message(self) -> (text: &'static str)
        ensures
            text@ == match self {
                WritableShareParseError::MissingSeparator =>
                    "writable share must have the form TAG=DIRECTORY"@,
                WritableShareParseError::InvalidTag =>
                    "writable share tag must contain only ASCII letters, digits, '-' or '_'"@,
                WritableShareParseError::EmptyDirectory =>
                    "writable share directory must not be empty"@,
            },
    {
        match self {
            WritableShareParseError::MissingSeparator =>
                "writable share must have the form TAG=DIRECTORY",
            WritableShareParseError::InvalidTag =>
                "writable share tag must contain only ASCII letters, digits, '-' or '_'",
            WritableShareParseError::EmptyDirectory => "writable share directory must not be empty",
        }
    }
}

impl GuestEnvironmentParseError {
    /// Describes the error.
    pub fn message(self) -> (text: &'static str)
        ensures
            text@ == match self {
                GuestEnvironmentParseError::MissingSeparator =>
                    "guest environment must have the form NAME=VALUE"@,
                GuestEnvironmentParseError::InvalidName =>
                    "guest environment name must be a shell identifier"@,
            },
    {
        match self {
            GuestEnvironmentParseError::MissingSeparator =>
                "guest environment must have the form NAME=VALUE",
            GuestEnvironmentParseError::InvalidName =>
                "guest environment name must be a shell identifier",
        }
    }
}

/// Whether `c` is an ASCII letter.
pub open spec fn is_letter(c: char) -> bool {
    'a' <= c <= 'z' || 'A' <= c <= 'Z'
}

/// Whether `c` is an ASCII letter or digit.
pub open spec fn is_alphanumeric(c: char) -> bool {
    is_letter(c) || '0' <= c <= '9'
}

/// Whether `c` may stand in a tag.
pub open spec fn is_tag_char(c: char) -> bool {
    is_alphanumeric(c) || c == '-' || c == '_'
}

/// Whether `text` is a tag: not empty, ASCII letters, digits, `-` and `_` only.
pub open spec fn is_tag(text: Seq<char>) -> bool {
    text.len() > 0 && forall|i: int| 0 <= i < text.len() ==> is_tag_char(#[trigger] text[i])
}

/// Whether `text` is a shell identifier: it starts with an ASCII letter or `_`
/// and goes on with ASCII letters, digits and `_`.
pub open spec fn is_shell_name(text: Seq<char>) -> bool {
    &&& text.len() > 0
    &&& is_letter(text[0]) || text[0] == '_'
    &&& forall|i: int|
        1 <= i < text.len() ==> is_alphanumeric(#[trigger] text[i]) || text[i] == '_'
}

fn letter(c: char) -> (yes: bool)
    ensures
        yes == is_letter(c),
{
    'a' <= c && c <= 'z' || 'A' <= c && c <= 'Z'
}

fn alphanumeric(c: char) -> (yes: bool)
    ensures
        yes == is_alphanumeric(c),
{
    letter(c) || '0' <= c && c <= '9'
}

fn is_valid_tag(text: &str) -> (valid: bool)
    ensures
        valid == is_tag(text@),
{
    let all = characters(text);
    let mut at: usize = 0;
    while at < all.len()
        invariant
            all@ == text@,
            at <= all@.len(),
            forall|i: int| 0 <= i < at ==> is_tag_char(#[trigger] text@[i]),
        decreases all@.len() - at,
    {
        let c = all[at];
        if !(alphanumeric(c) || c == '-' || c == '_') {
            assert(!is_tag_char(text@[at as int]));
            return false;
        }
        at += 1;
    }
    all.len() > 0
}

fn is_valid_name(text: &str) -> (valid: bool)
    ensures
        valid == is_shell_name(text@),
{
    let all = characters(text);
    if all.len() == 0 || !(letter(all[0]) || all[0] == '_') {
        return false;
    }
    let mut at: usize = 1;
    while at < all.len()
        invariant
            all@ == text@,
            1 <= at <= all@.len(),
            forall|i: int|
                1 <= i < at ==> is_alphanumeric(#[trigger] text@[i]) || text@[i] == '_',
        decreases all@.len() - at,
    {
        let c = all[at];
        if !(alphanumeric(c) || c == '_') {
            assert(!(is_alphanumeric(text@[at as int]) || text@[at as int] == '_'));
            return false;
        }
        at += 1;
    }
    true
}

/// The tag and the directory that a text names.
pub open spec fn share_of(text: Seq<char>) -> Result<
    (Seq<char>, Seq<char>),
    WritableShareParseError,
> {
    match split_pair(text) {
        None => Err(WritableShareParseError::MissingSeparator),
        Some((tag, directory)) => if !is_tag(tag) {
            Err(WritableShareParseError::InvalidTag)
        } else if directory.len() == 0 {
            Err(WritableShareParseError::EmptyDirectory)
        } else {
            Ok((tag, directory))
        },
    }
}

/// The name and the value that a text gives.
pub open spec fn environment_of(text: Seq<char>) -> Result<
    (Seq<char>, Seq<char>),
    GuestEnvironmentParseError,
> {
    match split_pair(text) {
        None => Err(GuestEnvironmentParseError::MissingSeparator),
        Some((name, value)) => if is_shell_name(name) {
            Ok((name, value))
        } else {
            Err(GuestEnvironmentParseError::InvalidName)
        },
    }
}

impl WritableShare {
    /// Parses `TAG=DIRECTORY`; the directory starts after the first `=`.
    pub fn from_str(value: &str) -> (share: Result<WritableShare, WritableShareParseError>)
        ensures
            match (share, share_of(value@)) {
                (Ok(share), Ok((tag, directory))) => share.tag@ == tag && share.directory@
                    == encode_utf8(directory),
                (Err(error), Err(expected)) => error == expected,
                _ => false,
            },
    {
        match split_at_equals(value) {
            None => Err(WritableShareParseError::MissingSeparator),
            Some((tag, directory)) => {
                if !is_valid_tag(tag) {
                    Err(WritableShareParseError::InvalidTag)
                } else if directory.is_empty() {
                    Err(WritableShareParseError::EmptyDirectory)
                } else {
                    Ok(
                        WritableShare {
                            tag: tag.to_owned(),
                            directory: HostPath::from_text(directory),
                        },
                    )
                }
            },
        }
    }
}

impl ReadOnlyDisk {
    /// Parses `ID=IMAGE`, with the same rules as a writable share.
    pub fn from_str(value: &str) -> (disk: Result<ReadOnlyDisk, WritableShareParseError>)
        ensures
            match (disk, share_of(value@)) {
                (Ok(disk), Ok((id, image))) => disk.id@ == id && disk.image@ == encode_utf8(image),
                (Err(error), Err(expected)) => error == expected,
                _ => false,
            },
    {
        match WritableShare::from_str(value) {
            Ok(share) => Ok(ReadOnlyDisk { id: share.tag, image: share.directory }),
            Err(error) => Err(error),
        }
    }
}

impl GuestEnvironment {
    /// Parses `NAME=VALUE`; the value starts after the first `=` and may be empty.
    pub fn from_str(value: &str) -> (entry: Result<GuestEnvironment, GuestEnvironmentParseError>)
        ensures
            match (entry, environment_of(value@)) {
                (Ok(entry), Ok((name, value))) => entry.name@ == name && entry.value@ == value,
                (Err(error), Err(expected)) => error == expected,
                _ => false,
            },
    {
        match split_at_equals(value) {
            None => Err(GuestEnvironmentParseError::MissingSeparator),
            Some((name, value)) => {
                if is_valid_name(name) {
                    Ok(GuestEnvironment { name: name.to_owned(), value: value.to_owned() })
                } else {
                    Err(GuestEnvironmentParseError::InvalidName)
                }
            },
        }
    }
}

proof fn lemma_pair(key: Seq<char>, value: Seq<char>)
    requires
        forall|i: int| 0 <= i < key.len() ==> key[i] != '=',
    ensures
        split_pair(key.push('=') + value) == Some((key, value)),
{
    let text = key.push('=') + value;
    assert forall|i: int| 0 <= i < key.len() implies text[i] != '=' by {
        assert(text[i] == key[i]);
    }
    lemma_first_index_unique(text, '=', key.len() as int);
    assert(text.take(key.len() as int) =~= key);
    assert(text.skip(key.len() as int + 1) =~= value);
}

/// A tag and a directory that are put together with `=` are taken apart again,
/// also when the directory holds `=`.
pub proof fn law_share_is_read_back(tag: Seq<char>, directory: Seq<char>)
    requires
        is_tag(tag),
        directory.len() > 0,
    ensures
        share_of(tag.push('=') + directory) == Ok::<
            (Seq<char>, Seq<char>),
            WritableShareParseError,
        >((tag, directory)),
{
    assert forall|i: int| 0 <= i < tag.len() implies tag[i] != '=' by {
        assert(is_tag_char(tag[i]));
    }
    lemma_pair(tag, directory);
}

/// A name and a value that are put together with `=` are taken apart again, also
/// when the value is empty or holds `=`.
pub proof fn law_environment_is_read_back(name: Seq<char>, value: Seq<char>)
    requires
        is_shell_name(name),
    ensures
        environment_of(name.push('=') + value) == Ok::<
            (Seq<char>, Seq<char>),
            GuestEnvironmentParseError,
        >((name, value)),
{
    assert forall|i: int| 0 <= i < name.len() implies name[i] != '=' by {
        if i > 0 {
            assert(is_alphanumeric(name[i]) || name[i] == '_');
        }
    }
    lemma_pair(name, value);
}

} // verus!
