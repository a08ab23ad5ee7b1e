//! The machine that a raw VM command describes.
use vstd::prelude::*;
use vstd::string::*;

use crate::path::HostPath;
use crate::text::texts;
use crate::vm_args::{GuestEnvironment, ReadOnlyDisk, WritableShare};

verus! {

/// Tag of the share that holds the guest tool runtime.
pub const RUNTIME_TAG: &'static str = "nanocodex-tools";

/// A raw VM command.
#[derive(Clone, Copy, Debug)]
pub struct RunVm<'a> {
    pub root: &'a HostPath,
    pub ext4: bool,
    pub cpus: u8,
    pub memory_mib: u32,
    pub network_socket: Option<&'a HostPath>,
    pub no_network: bool,
    pub runtime_directory: Option<&'a HostPath>,
    pub writable_shares: &'a Vec<WritableShare>,
    pub read_only_disks: &'a Vec<ReadOnlyDisk>,
    pub writable_disks: &'a Vec<ReadOnlyDisk>,
    pub environment: &'a Vec<GuestEnvironment>,
    pub guest_command: &'a Vec<String>,
}

/// What the machine boots from.
#[derive(Clone, Debug, PartialEq, Eq)]
pub enum RootDisk<P = HostPath> {
    /// A directory of the host.
    Directory(P),
    /// A raw ext4 block image.
    Ext4(P),
}

/// A network policy that the command states.
#[derive(Clone, Debug, PartialEq, Eq)]
pub enum Network<P = HostPath> {
    /// An isolated interface behind this gvproxy socket.
    Gvproxy(P),
    /// No network device.
    Disabled,
}

/// A host directory that the guest sees under a tag.
#[derive(Clone, Debug, PartialEq, Eq)]
pub struct SharedDirectory<T = String, P = HostPath> {
    pub tag: T,
    pub directory: P,
    pub writable: bool,
}

/// A block image that the guest sees under an identifier.
#[derive(Clone, Debug, PartialEq, Eq)]
pub struct BlockDevice<T = String, P = HostPath> {
    pub id: T,
    pub image: P,
    pub writable: bool,
}

impl View for RootDisk {
    type V = RootDisk<Seq<u8>>;

    open spec fn view(&self) -> RootDisk<Seq<u8>> {
        match *self {
            RootDisk::Directory(path) => RootDisk::Directory(path@),
            RootDisk::Ext4(path) => RootDisk::Ext4(path@),
        }
    }
}

impl View for Network {
    type V = Network<Seq<u8>>;

    open spec fn view(&self) -> Network<Seq<u8>> {
        match *self {
            Network::Gvproxy(path) => Network::Gvproxy(path@),
            Network::Disabled => Network::Disabled,
        }
    }
}

impl View for SharedDirectory {
    type V = SharedDirectory<Seq<char>, Seq<u8>>;

    open spec fn view(&self) -> SharedDirectory<Seq<char>, Seq<u8>> {
        SharedDirectory { tag: self.tag@, directory: self.directory@, writable: self.writable }
    }
}

impl View for BlockDevice {
    type V = BlockDevice<Seq<char>, Seq<u8>>;

    open spec fn view(&self) -> BlockDevice<Seq<char>, Seq<u8>> {
        BlockDevice { id: self.id@, image: self.image@, writable: self.writable }
    }
}

/// A virtual machine: shares and devices are attached in this order.
#[derive(Clone, Debug, PartialEq, Eq)]
pub struct VmConfig {
    pub root: RootDisk,
    pub cpus: u8,
    pub memory_mib: u32,
    /// The stated network policy; the machine's own default without one.
    pub network: Option<Network>,
    pub shared_directories: Vec<SharedDirectory>,
    pub block_devices: Vec<BlockDevice>,
}

/// The process that the guest starts with.
#[derive(Clone, Debug, PartialEq, Eq)]
pub struct GuestCommand {
    pub program: String,
    pub arguments: Vec<String>,
    pub environment: Vec<GuestEnvironment>,
}

/// A raw VM command without a guest command.
#[derive(Clone, Copy, Debug, PartialEq, Eq, Structural)]
pub struct EmptyGuestCommand;

impl EmptyGuestCommand {
    /// Describes the error.
    pub fn message(self) -> (text: &'static str)
        ensures
            text@ == "guest command must not be empty"@,
    {
        "guest command must not be empty"
    }
}

/// What the machine boots from.
pub open spec fn root_disk(root: Seq<u8>, ext4: bool) -> RootDisk<Seq<u8>> {
    if ext4 {
        RootDisk::Ext4(root)
    } else {
        RootDisk::Directory(root)
    }
}

/// The network policy that a command states: a socket, which wins over the
/// refusal of any network.
pub open spec fn network_policy(socket: Option<Seq<u8>>, no_network: bool) -> Option<
    Network<Seq<u8>>,
> {
    match socket {
        Some(path) => Some(Network::Gvproxy(path)),
        None => if no_network {
            Some(Network::Disabled)
        } else {
            None
        },
    }
}

/// The writable shares of a command.
pub open spec fn writable_shares(shares: Seq<WritableShare>) -> Seq<
    SharedDirectory<Seq<char>, Seq<u8>>,
> {
    shares.map_values(
        |share: WritableShare|
            SharedDirectory { tag: share.tag@, directory: share.directory@, writable: true },
    )
}

/// Every share of a command: the read-only runtime directory first, if there is
/// one, then the writable shares.
pub open spec fn all_shares(runtime: Option<Seq<u8>>, shares: Seq<WritableShare>) -> Seq<
    SharedDirectory<Seq<char>, Seq<u8>>,
> {
    match runtime {
        Some(directory) => seq![
            SharedDirectory { tag: RUNTIME_TAG@, directory, writable: false },
        ] + writable_shares(shares),
        None => writable_shares(shares),
    }
}

/// Devices for `disks`.
pub open spec fn devices(disks: Seq<ReadOnlyDisk>, writable: bool) -> Seq<
    BlockDevice<Seq<char>, Seq<u8>>,
> {
    disks.map_values(
        |disk: ReadOnlyDisk| BlockDevice { id: disk.id@, image: disk.image@, writable },
    )
}

/// The contents of a list of shares.
pub open spec fn share_views(shares: Seq<SharedDirectory>) -> Seq<
    SharedDirectory<Seq<char>, Seq<u8>>,
> {
    shares.map_values(|share: SharedDirectory| share@)
}

/// The contents of a list of devices.
pub open spec fn device_views(found: Seq<BlockDevice>) -> Seq<BlockDevice<Seq<char>, Seq<u8>>> {
    found.map_values(|device: BlockDevice| device@)
}

/// The contents of a list of environment entries.
pub open spec fn entry_views(entries: Seq<GuestEnvironment>) -> Seq<(Seq<char>, Seq<char>)> {
    entries.map_values(|entry: GuestEnvironment| (entry.name@, entry.value@))
}

/// The bytes of an optional path.
pub open spec fn path_view(path: Option<&HostPath>) -> Option<Seq<u8>> {
    match path {
        Some(path) => Some(path@),
        None => None,
    }
}

/// The contents of an optional network policy.
pub open spec fn network_view(network: Option<Network>) -> Option<Network<Seq<u8>>> {
    match network {
        Some(network) => Some(network@),
        None => None,
    }
}

fn push_devices(found: &mut Vec<BlockDevice>, disks: &Vec<ReadOnlyDisk>, writable: bool)
    ensures
        device_views(final(found)@) == device_views(old(found)@) + devices(disks@, writable),
{
    let ghost before = found@;
    let mut at: usize = 0;
    while at < disks.len()
        invariant
            at <= disks@.len(),
            device_views(found@) == device_views(before) + devices(disks@, writable).take(
                at as int,
            ),
        decreases disks@.len() - at,
    {
        let ghost previous = found@;
        found.push(
            BlockDevice {
                id: disks[at].id.clone(),
                image: disks[at].image.duplicate(),
                writable,
            },
        );
        assert(device_views(found@) =~= device_views(previous).push(
            devices(disks@, writable)[at as int],
        ));
        assert(device_views(found@) =~= device_views(before) + devices(disks@, writable).take(
            at + 1,
        ));
        at += 1;
    }
    assert(devices(disks@, writable).take(at as int) =~= devices(disks@, writable));
}

fn push_shares(found: &mut Vec<SharedDirectory>, shares: &Vec<WritableShare>)
    ensures
        share_views(final(found)@) == share_views(old(found)@) + writable_shares(shares@),
{
    let ghost before = found@;
    let mut at: usize = 0;
    while at < shares.len()
        invariant
            at <= shares@.len(),
            share_views(found@) == share_views(before) + writable_shares(shares@).take(at as int),
        decreases shares@.len() - at,
    {
        let ghost previous = found@;
        found.push(
            SharedDirectory {
                tag: shares[at].tag.clone(),
                directory: shares[at].directory.duplicate(),
                writable: true,
            },
        );
        assert(share_views(found@) =~= share_views(previous).push(
            writable_shares(shares@)[at as int],
        ));
        assert(share_views(found@) =~= share_views(before) + writable_shares(shares@).take(
            at + 1,
        ));
        at += 1;
    }
    assert(writable_shares(shares@).take(at as int) =~= writable_shares(shares@));
}

/// The entries that the guest's process inherits.
fn copy_environment(entries: &Vec<GuestEnvironment>) -> (copy: Vec<GuestEnvironment>)
    ensures
        entry_views(copy@) == entry_views(entries@),
{
    let mut copy: Vec<GuestEnvironment> = Vec::new();
    let mut at: usize = 0;
    while at < entries.len()
        invariant
            at <= entries@.len(),
            entry_views(copy@) == entry_views(entries@).take(at as int),
        decreases entries@.len() - at,
    {
        let ghost previous = copy@;
        copy.push(
            GuestEnvironment { name: entries[at].name.clone(), value: entries[at].value.clone() },
        );
        assert(entry_views(copy@) =~= entry_views(previous).push(
            entry_views(entries@)[at as int],
        ));
        assert(entry_views(copy@) =~= entry_views(entries@).take(at + 1));
        at += 1;
    }
    assert(entry_views(entries@).take(at as int) =~= entry_views(entries@));
    copy
}

/// The machine and the guest process that a raw VM command describes, or an
/// error when the command names nothing to run.
pub fn run_vm(input: RunVm) -> (plan: Result<(VmConfig, GuestCommand), EmptyGuestCommand>)
    ensures
        plan is Err <==> input.guest_command@.len() == 0,
        plan matches Ok((config, command)) ==> {
            &&& config.root@ == root_disk(input.root@, input.ext4)
            &&& config.cpus == input.cpus
            &&& config.memory_mib == input.memory_mib
            &&& network_view(config.network) == network_policy(
                path_view(input.network_socket),
                input.no_network,
            )
            &&& share_views(config.shared_directories@) == all_shares(
                path_view(input.runtime_directory),
                input.writable_shares@,
            )
            &&& device_views(config.block_devices@) == devices(input.read_only_disks@, false)
                + devices(input.writable_disks@, true)
            &&& command.program@ == input.guest_command@[0]@
            &&& texts(command.arguments@) == texts(input.guest_command@).skip(1)
            &&& entry_views(command.environment@) == entry_views(input.environment@)
        },
{
    if input.guest_command.len() == 0 {
        return Err(EmptyGuestCommand);
    }
    let program = input.guest_command[0].clone();
    let mut arguments: Vec<String> = Vec::new();
    let mut at: usize = 1;
    while at < input.guest_command.len()
        invariant
            1 <= at <= input.guest_command@.len(),
            texts(arguments@) == texts(input.guest_command@).subrange(1, at as int),
        decreases input.guest_command@.len() - at,
    {
        let ghost previous = arguments@;
        arguments.push(input.guest_command[at].clone());
        assert(texts(arguments@) =~= texts(previous).push(texts(input.guest_command@)[at as int]));
        assert(texts(arguments@) =~= texts(input.guest_command@).subrange(1, at + 1));
        at += 1;
    }
    assert(texts(arguments@) =~= texts(input.guest_command@).skip(1));
    let root = if input.ext4 {
        RootDisk::Ext4(input.root.duplicate())
    } else {
        RootDisk::Directory(input.root.duplicate())
    };
    let network = match input.network_socket {
        Some(socket) => Some(Network::Gvproxy(socket.duplicate())),
        None => if input.no_network {
            Some(Network::Disabled)
        } else {
            None
        },
    };
    let mut shared_directories: Vec<SharedDirectory> = Vec::new();
    if let Some(directory) = input.runtime_directory {
        shared_directories.push(
            SharedDirectory {
                tag: String::from_str(RUNTIME_TAG),
                directory: directory.duplicate(),
                writable: false,
            },
        );
    }
    push_shares(&mut shared_directories, input.writable_shares);
    assert(share_views(shared_directories@) =~= all_shares(
        path_view(input.runtime_directory),
        input.writable_shares@,
    ));
    let mut block_devices: Vec<BlockDevice> = Vec::new();
    push_devices(&mut block_devices, input.read_only_disks, false);
    push_devices(&mut block_devices, input.writable_disks, true);
    assert(device_views(block_devices@) =~= devices(input.read_only_disks@, false) + devices(
        input.writable_disks@,
        true,
    ));
    let environment = copy_environment(input.environment);
    Ok(
        (
            VmConfig {
                root,
                cpus: input.cpus,
                memory_mib: input.memory_mib,
                network,
                shared_directories,
                block_devices,
            },
            GuestCommand { program, arguments, environment },
        ),
    )
}

} // verus!
