//! What a raw VM command, and the arguments that describe it, come to.
use vstd::prelude::*;
use vstd::string::*;
use vstd::utf8::*;

use crate::text::{law_split_pair, split_pair, texts};
use crate::vm_args::{
    environment_of, is_shell_name, is_tag, is_tag_char, share_of, GuestEnvironment,
    GuestEnvironmentParseError, ReadOnlyDisk, WritableShare, WritableShareParseError,
};
use crate::vm_run::{
    device_views, devices, entry_views, run_vm, share_views, writable_shares, EmptyGuestCommand,
    GuestCommand, Network, RootDisk, RunVm, VmConfig,
};

verus! {

/// A machine is described exactly when there is something to run in it.
pub proof fn law_machine_needs_a_command(
    input: RunVm,
    plan: Result<(VmConfig, GuestCommand), EmptyGuestCommand>,
)
    requires
        call_ensures(run_vm, (input,), plan),
    ensures
        plan is Ok <==> input.guest_command@.len() > 0,
{
}

/// The machine has the processors and the memory that were asked for, and boots
/// from the root that was named: a block image where it is one, a directory of the
/// host otherwise.
pub proof fn law_machine_has_what_was_asked_for(input: RunVm, config: VmConfig, command: GuestCommand)
    requires
        call_ensures(run_vm, (input,), Ok::<_, EmptyGuestCommand>((config, command))),
    ensures
        config.cpus == input.cpus,
        config.memory_mib == input.memory_mib,
        match config.root {
            RootDisk::Ext4(path) => input.ext4 && path@ == input.root@,
            RootDisk::Directory(path) => !input.ext4 && path@ == input.root@,
        },
{
}

/// A machine is behind the socket that was named, whatever else was said; without
/// one it has no network where none was wanted, and no stated policy otherwise.
pub proof fn law_machine_network(input: RunVm, config: VmConfig, command: GuestCommand)
    requires
        call_ensures(run_vm, (input,), Ok::<_, EmptyGuestCommand>((config, command))),
    ensures
        match (config.network, input.network_socket) {
            (Some(Network::Gvproxy(path)), Some(socket)) => path@ == socket@,
            (Some(Network::Disabled), None) => input.no_network,
            (None, None) => !input.no_network,
            _ => false,
        },
{
}

/// Every writable share is attached under its tag, with its directory, in the
/// order of the command, with or without a runtime directory. The runtime
/// directory comes first and is not writable, and nothing else is shared.
pub proof fn law_machine_shares(input: RunVm, config: VmConfig, command: GuestCommand)
    requires
        call_ensures(run_vm, (input,), Ok::<_, EmptyGuestCommand>((config, command))),
    ensures
        ({
            let shared = config.shared_directories@;
            let wanted = input.writable_shares@;
            let first: int = if input.runtime_directory is Some {
                1
            } else {
                0
            };
            &&& shared.len() == first + wanted.len()
            &&& forall|i: int|
                0 <= i < wanted.len() ==> {
                    let share = #[trigger] shared[first + i];
                    &&& share.tag@ == wanted[i].tag@
                    &&& share.directory@ == wanted[i].directory@
                    &&& share.writable
                }
            &&& input.runtime_directory matches Some(runtime) ==> {
                &&& shared[0].tag@ == "nanocodex-tools"@
                &&& shared[0].directory@ == runtime@
                &&& !shared[0].writable
            }
        }),
{
    let shared = config.shared_directories@;
    let views = share_views(shared);
    assert forall|i: int| 0 <= i < shared.len() implies views[i] == (#[trigger] shared[i])@ by {}
    assert(views.len() == shared.len());
    let wanted = input.writable_shares@;
    let first: int = if input.runtime_directory is Some {
        1
    } else {
        0
    };
    assert forall|i: int| 0 <= i < wanted.len() implies {
        let share = #[trigger] shared[first + i];
        &&& share.tag@ == wanted[i].tag@
        &&& share.directory@ == wanted[i].directory@
        &&& share.writable
    } by {
        assert(views[first + i] == writable_shares(wanted)[i]);
        assert(views[first + i] == shared[first + i]@);
    }
    if input.runtime_directory is Some {
        assert(views[0] == shared[0]@);
    }
}

/// Every read-only disk is attached as such, then every writable one, each under
/// its identifier, with its image, in the order of the command; there are no other
/// devices.
pub proof fn law_machine_devices(input: RunVm, config: VmConfig, command: GuestCommand)
    requires
        call_ensures(run_vm, (input,), Ok::<_, EmptyGuestCommand>((config, command))),
    ensures
        ({
            let found = config.block_devices@;
            let fixed = input.read_only_disks@;
            let writable = input.writable_disks@;
            &&& found.len() == fixed.len() + writable.len()
            &&& forall|i: int|
                0 <= i < fixed.len() ==> {
                    let device = #[trigger] found[i];
                    &&& device.id@ == fixed[i].id@
                    &&& device.image@ == fixed[i].image@
                    &&& !device.writable
                }
            &&& forall|i: int|
                0 <= i < writable.len() ==> {
                    let device = #[trigger] found[fixed.len() + i];
                    &&& device.id@ == writable[i].id@
                    &&& device.image@ == writable[i].image@
                    &&& device.writable
                }
        }),
{
    let found = config.block_devices@;
    let fixed = input.read_only_disks@;
    let writable = input.writable_disks@;
    let views = device_views(found);
    assert(views.len() == found.len());
    assert forall|i: int| 0 <= i < fixed.len() implies {
        let device = #[trigger] found[i];
        &&& device.id@ == fixed[i].id@
        &&& device.image@ == fixed[i].image@
        &&& !device.writable
    } by {
        assert(views[i] == devices(fixed, false)[i]);
        assert(views[i] == found[i]@);
    }
    assert forall|i: int| 0 <= i < writable.len() implies {
        let device = #[trigger] found[fixed.len() + i];
        &&& device.id@ == writable[i].id@
        &&& device.image@ == writable[i].image@
        &&& device.writable
    } by {
        assert(views[fixed.len() + i] == devices(writable, true)[i]);
        assert(views[fixed.len() + i] == found[fixed.len() + i]@);
    }
}

/// The guest starts with the first word of the command, gets every other word as
/// an argument, and sees every environment entry, in order.
pub proof fn law_machine_runs_the_command(input: RunVm, config: VmConfig, command: GuestCommand)
    requires
        call_ensures(run_vm, (input,), Ok::<_, EmptyGuestCommand>((config, command))),
    ensures
        input.guest_command@.len() == command.arguments@.len() + 1,
        command.program@ == input.guest_command@[0]@,
        forall|i: int|
            0 <= i < command.arguments@.len() ==> (#[trigger] command.arguments@[i])@
                == input.guest_command@[i + 1]@,
        command.environment@.len() == input.environment@.len(),
        forall|i: int|
            0 <= i < command.environment@.len() ==> {
                let entry = #[trigger] command.environment@[i];
                entry.name@ == input.environment@[i].name@ && entry.value@
                    == input.environment@[i].value@
            },
{
    let words = input.guest_command@;
    let arguments = command.arguments@;
    assert(texts(arguments).len() == arguments.len());
    assert(texts(words).len() == words.len());
    assert forall|i: int| 0 <= i < arguments.len() implies (#[trigger] arguments[i])@
        == words[i + 1]@ by {
        assert(texts(arguments)[i] == arguments[i]@);
        assert(texts(words).skip(1)[i] == words[i + 1]@);
    }
    let entries = command.environment@;
    assert(entry_views(entries).len() == entries.len());
    assert(entry_views(input.environment@).len() == input.environment@.len());
    assert forall|i: int| 0 <= i < entries.len() implies {
        let entry = #[trigger] entries[i];
        entry.name@ == input.environment@[i].name@ && entry.value@ == input.environment@[i].value@
    } by {
        assert(entry_views(entries)[i] == (entries[i].name@, entries[i].value@));
        assert(entry_views(input.environment@)[i] == (
            input.environment@[i].name@,
            input.environment@[i].value@,
        ));
    }
}

/// Whether the code of a character is that of an ASCII letter or digit.
pub open spec fn letter_or_digit_code(c: char) -> bool {
    let code = c as int;
    65 <= code <= 90 || 97 <= code <= 122 || 48 <= code <= 57
}

/// A tag is a run of ASCII letters, digits, hyphens and underscores; anything else
/// in it, or nothing at all, makes it none.
pub proof fn law_tags(text: Seq<char>)
    ensures
        is_tag(text) <==> text.len() > 0 && forall|i: int|
            0 <= i < text.len() ==> letter_or_digit_code(#[trigger] text[i]) || text[i] as int == 45
                || text[i] as int == 95,
{
    assert forall|c: char| #[trigger]
        is_tag_char(c) <==> letter_or_digit_code(c) || c as int == 45 || c as int == 95 by {}
    if is_tag(text) {
        assert forall|i: int| 0 <= i < text.len() implies letter_or_digit_code(#[trigger] text[i])
            || text[i] as int == 45 || text[i] as int == 95 by {
            assert(is_tag_char(text[i]));
        }
    }
}

/// A variable name is a run of ASCII letters, digits and underscores that does not
/// start with a digit.
pub proof fn law_variable_names(text: Seq<char>)
    ensures
        is_shell_name(text) <==> {
            &&& text.len() > 0
            &&& !(48 <= text[0] as int <= 57)
            &&& forall|i: int|
                0 <= i < text.len() ==> letter_or_digit_code(#[trigger] text[i]) || text[i] as int
                    == 95
        },
{
    if is_shell_name(text) {
        assert forall|i: int| 0 <= i < text.len() implies letter_or_digit_code(#[trigger] text[i])
            || text[i] as int == 95 by {
            if i > 0 {
                assert(crate::vm_args::is_alphanumeric(text[i]) || text[i] == '_');
            }
        }
    }
}

/// A text is a share exactly when it is a tag, an equals sign and a directory that
/// is not empty; the directory is all that follows the first equals sign. What is
/// wrong with any other text is what comes first: no equals sign, no tag, no
/// directory.
pub proof fn law_shares(text: Seq<char>)
    ensures
        match share_of(text) {
            Ok((tag, directory)) => {
                &&& text == tag + seq!['='] + directory
                &&& !tag.contains('=')
                &&& is_tag(tag)
                &&& directory.len() > 0
            },
            Err(WritableShareParseError::MissingSeparator) => !text.contains('='),
            Err(WritableShareParseError::InvalidTag) => exists|tag: Seq<char>, rest: Seq<char>|
                text == #[trigger] (tag + seq!['='] + rest) && !tag.contains('=') && !is_tag(tag),
            Err(WritableShareParseError::EmptyDirectory) => exists|tag: Seq<char>|
                text == #[trigger] (tag + seq!['=']) && is_tag(tag),
        },
        text.contains('=') ==> share_of(text) != Err::<(Seq<char>, Seq<char>), _>(
            WritableShareParseError::MissingSeparator,
        ),
{
    law_split_pair(text);
    if let Some((tag, rest)) = split_pair(text) {
        assert(text == tag + seq!['='] + rest);
        if rest.len() == 0 {
            assert(text =~= tag + seq!['=']);
        }
    }
}

/// A text is an environment entry exactly when it is a variable name, an equals
/// sign and a value, which may be empty: all that follows the first equals sign.
pub proof fn law_environment_entries(text: Seq<char>)
    ensures
        match environment_of(text) {
            Ok((name, value)) => {
                &&& text == name + seq!['='] + value
                &&& !name.contains('=')
                &&& is_shell_name(name)
            },
            Err(GuestEnvironmentParseError::MissingSeparator) => !text.contains('='),
            Err(GuestEnvironmentParseError::InvalidName) => exists|name: Seq<char>, rest: Seq<char>|
                text == #[trigger] (name + seq!['='] + rest) && !name.contains('=')
                    && !is_shell_name(name),
        },
{
    law_split_pair(text);
    if let Some((name, rest)) = split_pair(text) {
        assert(text == name + seq!['='] + rest);
    }
}

/// A parsed share has the tag and the directory that stand in the text; a disk is
/// parsed as a share is; and so is an entry. Put together with an equals sign,
/// what was parsed is the text again.
pub proof fn law_parsed_arguments_spell_their_text(
    text: &str,
    share: Result<WritableShare, WritableShareParseError>,
    disk: Result<ReadOnlyDisk, WritableShareParseError>,
    entry: Result<GuestEnvironment, GuestEnvironmentParseError>,
)
    requires
        call_ensures(WritableShare::from_str, (text,), share),
        call_ensures(ReadOnlyDisk::from_str, (text,), disk),
        call_ensures(GuestEnvironment::from_str, (text,), entry),
    ensures
        share matches Ok(share) ==> exists|directory: Seq<char>|
            text@ == #[trigger] (share.tag@ + seq!['='] + directory) && share.directory@
                == encode_utf8(directory) && directory.len() > 0,
        entry matches Ok(entry) ==> text@ == entry.name@ + seq!['='] + entry.value@,
        match (share, disk) {
            (Ok(share), Ok(disk)) => share.tag@ == disk.id@ && share.directory@ == disk.image@,
            (Err(one), Err(other)) => one == other,
            _ => false,
        },
{
    law_shares(text@);
    law_environment_entries(text@);
    if share is Ok {
        let (tag, directory) = share_of(text@)->Ok_0;
        assert(text@ == tag + seq!['='] + directory);
    }
}

/// What is wrong with an argument is said in words of its own, which name the form
/// that was expected.
pub proof fn law_argument_errors_are_told_apart(
    one: WritableShareParseError,
    other: WritableShareParseError,
    told: &'static str,
    retold: &'static str,
)
    requires
        call_ensures(WritableShareParseError::message, (one,), told),
        call_ensures(WritableShareParseError::message, (other,), retold),
    ensures
        told@ == retold@ <==> one == other,
        one is MissingSeparator <==> told@ == "writable share must have the form TAG=DIRECTORY"@,
        one is EmptyDirectory <==> told@ == "writable share directory must not be empty"@,
        one is InvalidTag <==> told@
            == "writable share tag must contain only ASCII letters, digits, '-' or '_'"@,
{
    reveal_strlit("writable share must have the form TAG=DIRECTORY");
    reveal_strlit("writable share directory must not be empty");
    reveal_strlit("writable share tag must contain only ASCII letters, digits, '-' or '_'");
    assert("writable share must have the form TAG=DIRECTORY"@.len() == 47);
    assert("writable share directory must not be empty"@.len() == 42);
    assert("writable share tag must contain only ASCII letters, digits, '-' or '_'"@.len() == 70);
}

/// The same of environment entries.
pub proof fn law_entry_errors_are_told_apart(
    one: GuestEnvironmentParseError,
    other: GuestEnvironmentParseError,
    told: &'static str,
    retold: &'static str,
)
    requires
        call_ensures(GuestEnvironmentParseError::message, (one,), told),
        call_ensures(GuestEnvironmentParseError::message, (other,), retold),
    ensures
        told@ == retold@ <==> one == other,
        one is MissingSeparator <==> told@ == "guest environment must have the form NAME=VALUE"@,
        one is InvalidName <==> told@ == "guest environment name must be a shell identifier"@,
{
    reveal_strlit("guest environment must have the form NAME=VALUE");
    reveal_strlit("guest environment name must be a shell identifier");
    assert("guest environment must have the form NAME=VALUE"@.len() == 47);
    assert("guest environment name must be a shell identifier"@.len() == 49);
}

/// A machine without a command is refused in these words.
pub proof fn law_missing_command_is_described(error: EmptyGuestCommand, text: &'static str)
    requires
        call_ensures(EmptyGuestCommand::message, (error,), text),
    ensures
        text@ == "guest command must not be empty"@,
{
}

} // verus!
