use nanocodex::path::HostPath;
use nanocodex::vm_args::{
    GuestEnvironment, GuestEnvironmentParseError, ReadOnlyDisk, WritableShare,
    WritableShareParseError,
};

#[test]
fn writable_share_is_a_strict_tag_and_directory_pair() {
    let share = WritableShare::from_str("nanocodex-cache=/tmp/cache").unwrap();
    assert_eq!(share.tag, "nanocodex-cache");
    assert_eq!(share.directory, HostPath::from_text("/tmp/cache"));

    assert!(WritableShare::from_str("missing-directory=").is_err());
    assert!(WritableShare::from_str("bad tag=/tmp/cache").is_err());
    assert!(WritableShare::from_str("/tmp/cache").is_err());
}

#[test]
fn read_only_disk_uses_the_same_strict_pair_shape() {
    let disk = ReadOnlyDisk::from_str("runtime=/tmp/runtime.ext4").unwrap();
    assert_eq!(disk.id, "runtime");
    assert_eq!(disk.image, HostPath::from_text("/tmp/runtime.ext4"));
}

#[test]
fn share_errors_are_told_apart() {
    assert_eq!(
        WritableShare::from_str("no separator").err(),
        Some(WritableShareParseError::MissingSeparator)
    );
    assert_eq!(
        WritableShare::from_str("=/tmp").err(),
        Some(WritableShareParseError::InvalidTag)
    );
    assert_eq!(
        WritableShare::from_str("t\u{e9}g=/tmp").err(),
        Some(WritableShareParseError::InvalidTag)
    );
    assert_eq!(
        ReadOnlyDisk::from_str("tag=").err(),
        Some(WritableShareParseError::EmptyDirectory)
    );
    assert_eq!(
        WritableShareParseError::MissingSeparator.message(),
        "writable share must have the form TAG=DIRECTORY"
    );
    assert_eq!(
        WritableShareParseError::InvalidTag.message(),
        "writable share tag must contain only ASCII letters, digits, '-' or '_'"
    );
    assert_eq!(
        WritableShareParseError::EmptyDirectory.message(),
        "writable share directory must not be empty"
    );
}

#[test]
fn shares_are_split_at_the_first_separator() {
    let share = WritableShare::from_str("A-b_9=/tmp/a=b").unwrap();
    assert_eq!(share.tag, "A-b_9");
    assert_eq!(share.directory, HostPath::from_text("/tmp/a=b"));
}

#[test]
fn environment_entries_have_shell_names() {
    let entry = GuestEnvironment::from_str("_A1=x=y").unwrap();
    assert_eq!(entry.name, "_A1");
    assert_eq!(entry.value, "x=y");
    assert_eq!(GuestEnvironment::from_str("EMPTY=").unwrap().value, "");

    assert_eq!(
        GuestEnvironment::from_str("PATH").err(),
        Some(GuestEnvironmentParseError::MissingSeparator)
    );
    for text in ["=x", "1A=x", "A-B=x", "A B=x"] {
        assert_eq!(
            GuestEnvironment::from_str(text).err(),
            Some(GuestEnvironmentParseError::InvalidName)
        );
    }
    assert_eq!(
        GuestEnvironmentParseError::MissingSeparator.message(),
        "guest environment must have the form NAME=VALUE"
    );
    assert_eq!(
        GuestEnvironmentParseError::InvalidName.message(),
        "guest environment name must be a shell identifier"
    );
}
