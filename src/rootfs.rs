//! The construction of the container's root filesystem, as far as it is
//! decided before any syscall: mount flags, paths inside the rootfs, the
//! default devices and links, and the order of the steps.
use vstd::prelude::*;
use vstd::string::*;

use crate::error::{Error, ErrorType};
use crate::text::{join_path, str_eq};

verus! {

pub const MS_RDONLY: u64 = 1;
pub const MS_NOSUID: u64 = 2;
pub const MS_NODEV: u64 = 4;
pub const MS_NOEXEC: u64 = 8;
pub const MS_SYNCHRONOUS: u64 = 16;
pub const MS_REMOUNT: u64 = 32;
pub const MS_MANDLOCK: u64 = 64;
pub const MS_DIRSYNC: u64 = 128;
pub const MS_NOATIME: u64 = 1024;
pub const MS_NODIRATIME: u64 = 2048;
pub const MS_BIND: u64 = 4096;
pub const MS_REC: u64 = 16384;
pub const MS_UNBINDABLE: u64 = 131072;
pub const MS_PRIVATE: u64 = 262144;
pub const MS_SLAVE: u64 = 524288;
pub const MS_SHARED: u64 = 1048576;
pub const MS_RELATIME: u64 = 2097152;
pub const MS_STRICTATIME: u64 = 16777216;

/// What a mount option of the OCI vocabulary does to the kernel's flags:
/// `Some((clear, bits))` clears `bits` where `clear`, sets them otherwise;
/// nothing where the option goes to the data string.
pub open spec fn option_effect(o: Seq<char>) -> Option<(bool, u64)> {
    if o == "ro"@ { Some((false, MS_RDONLY)) }
    else if o == "rw"@ { Some((true, MS_RDONLY)) }
    else if o == "nosuid"@ { Some((false, MS_NOSUID)) }
    else if o == "suid"@ { Some((true, MS_NOSUID)) }
    else if o == "nodev"@ { Some((false, MS_NODEV)) }
    else if o == "dev"@ { Some((true, MS_NODEV)) }
    else if o == "noexec"@ { Some((false, MS_NOEXEC)) }
    else if o == "exec"@ { Some((true, MS_NOEXEC)) }
    else if o == "sync"@ { Some((false, MS_SYNCHRONOUS)) }
    else if o == "async"@ { Some((true, MS_SYNCHRONOUS)) }
    else if o == "remount"@ { Some((false, MS_REMOUNT)) }
    else if o == "mand"@ { Some((false, MS_MANDLOCK)) }
    else if o == "nomand"@ { Some((true, MS_MANDLOCK)) }
    else if o == "dirsync"@ { Some((false, MS_DIRSYNC)) }
    else if o == "noatime"@ { Some((false, MS_NOATIME)) }
    else if o == "atime"@ { Some((true, MS_NOATIME)) }
    else if o == "nodiratime"@ { Some((false, MS_NODIRATIME)) }
    else if o == "diratime"@ { Some((true, MS_NODIRATIME)) }
    else if o == "bind"@ { Some((false, MS_BIND)) }
    else if o == "rbind"@ { Some((false, MS_BIND | MS_REC)) }
    else if o == "relatime"@ { Some((false, MS_RELATIME)) }
    else if o == "norelatime"@ { Some((true, MS_RELATIME)) }
    else if o == "strictatime"@ { Some((false, MS_STRICTATIME)) }
    else if o == "nostrictatime"@ { Some((true, MS_STRICTATIME)) }
    else if o == "private"@ { Some((false, MS_PRIVATE)) }
    else if o == "rprivate"@ { Some((false, MS_PRIVATE | MS_REC)) }
    else if o == "shared"@ { Some((false, MS_SHARED)) }
    else if o == "rshared"@ { Some((false, MS_SHARED | MS_REC)) }
    else if o == "slave"@ { Some((false, MS_SLAVE)) }
    else if o == "rslave"@ { Some((false, MS_SLAVE | MS_REC)) }
    else if o == "unbindable"@ { Some((false, MS_UNBINDABLE)) }
    else if o == "runbindable"@ { Some((false, MS_UNBINDABLE | MS_REC)) }
    else { None }
}

/// `flags` after option `o`.
pub open spec fn apply_option(flags: u64, o: Seq<char>) -> u64 {
    match option_effect(o) {
        Some((clear, bits)) => if clear { flags & !bits } else { flags | bits },
        None => flags,
    }
}

/// The kernel flags of a list of options, applied left to right from none.
pub open spec fn mount_flags(opts: Seq<Seq<char>>) -> u64
    decreases opts.len(),
{
    if opts.len() == 0 {
        0
    } else {
        apply_option(mount_flags(opts.drop_last()), opts.last())
    }
}

/// The options that are no flag, in order, joined by commas.
pub open spec fn mount_data(opts: Seq<Seq<char>>) -> Seq<char>
    decreases opts.len(),
{
    if opts.len() == 0 {
        Seq::empty()
    } else {
        let d = mount_data(opts.drop_last());
        if option_effect(opts.last()) is Some {
            d
        } else if d.len() == 0 {
            opts.last()
        } else {
            d + ","@ + opts.last()
        }
    }
}

/// What a mount option does to the kernel's flags.
pub fn option_effect_of(o: &str) -> (r: Option<(bool, u64)>)
    ensures
        r == option_effect(o@),
{
    if str_eq(o, "ro") { Some((false, MS_RDONLY)) }
    else if str_eq(o, "rw") { Some((true, MS_RDONLY)) }
    else if str_eq(o, "nosuid") { Some((false, MS_NOSUID)) }
    else if str_eq(o, "suid") { Some((true, MS_NOSUID)) }
    else if str_eq(o, "nodev") { Some((false, MS_NODEV)) }
    else if str_eq(o, "dev") { Some((true, MS_NODEV)) }
    else if str_eq(o, "noexec") { Some((false, MS_NOEXEC)) }
    else if str_eq(o, "exec") { Some((true, MS_NOEXEC)) }
    else if str_eq(o, "sync") { Some((false, MS_SYNCHRONOUS)) }
    else if str_eq(o, "async") { Some((true, MS_SYNCHRONOUS)) }
    else if str_eq(o, "remount") { Some((false, MS_REMOUNT)) }
    else if str_eq(o, "mand") { Some((false, MS_MANDLOCK)) }
    else if str_eq(o, "nomand") { Some((true, MS_MANDLOCK)) }
    else if str_eq(o, "dirsync") { Some((false, MS_DIRSYNC)) }
    else if str_eq(o, "noatime") { Some((false, MS_NOATIME)) }
    else if str_eq(o, "atime") { Some((true, MS_NOATIME)) }
    else if str_eq(o, "nodiratime") { Some((false, MS_NODIRATIME)) }
    else if str_eq(o, "diratime") { Some((true, MS_NODIRATIME)) }
    else if str_eq(o, "bind") { Some((false, MS_BIND)) }
    else if str_eq(o, "rbind") { Some((false, MS_BIND | MS_REC)) }
    else if str_eq(o, "relatime") { Some((false, MS_RELATIME)) }
    else if str_eq(o, "norelatime") { Some((true, MS_RELATIME)) }
    else if str_eq(o, "strictatime") { Some((false, MS_STRICTATIME)) }
    else if str_eq(o, "nostrictatime") { Some((true, MS_STRICTATIME)) }
    else if str_eq(o, "private") { Some((false, MS_PRIVATE)) }
    else if str_eq(o, "rprivate") { Some((false, MS_PRIVATE | MS_REC)) }
    else if str_eq(o, "shared") { Some((false, MS_SHARED)) }
    else if str_eq(o, "rshared") { Some((false, MS_SHARED | MS_REC)) }
    else if str_eq(o, "slave") { Some((false, MS_SLAVE)) }
    else if str_eq(o, "rslave") { Some((false, MS_SLAVE | MS_REC)) }
    else if str_eq(o, "unbindable") { Some((false, MS_UNBINDABLE)) }
    else if str_eq(o, "runbindable") { Some((false, MS_UNBINDABLE | MS_REC)) }
    else { None }
}

/// A mount entry's options as the kernel takes them.
pub struct MountOptions {
    pub flags: u64,
    pub data: String,
}

/// Translates a mount entry's options: the flags they set and clear, left to
/// right, and the rest joined by commas as the data string.
pub fn parse_mount_options(options: &Vec<String>) -> (r: MountOptions)
    ensures
        r.flags == mount_flags(options@.map_values(|s: String| s@)),
        r.data@ == mount_data(options@.map_values(|s: String| s@)),
{
    let ghost views = options@.map_values(|s: String| s@);
    let mut flags: u64 = 0;
    let mut data = String::new();
    let mut i: usize = 0;
    while i < options.len()
        invariant
            i <= options@.len(),
            views == options@.map_values(|s: String| s@),
            flags == mount_flags(views.subrange(0, i as int)),
            data@ == mount_data(views.subrange(0, i as int)),
        decreases options@.len() - i,
    {
        let o = options[i].as_str();
        assert(views.subrange(0, i + 1).drop_last() =~= views.subrange(0, i as int));
        assert(views.subrange(0, i + 1).last() == o@);
        match option_effect_of(o) {
            Some((clear, bits)) => {
                if clear {
                    flags = flags & !bits;
                } else {
                    flags = flags | bits;
                }
            },
            None => {
                if data.unicode_len() > 0 {
                    data.append(",");
                }
                data.append(o);
            },
        }
        i = i + 1;
    }
    assert(views.subrange(0, options@.len() as int) =~= views);
    MountOptions { flags, data }
}

/// Whether `s` has a `..` component starting at `i`.
pub open spec fn is_parent_component_at(s: Seq<char>, i: int) -> bool {
    0 <= i && i + 2 <= s.len() && s[i] == '.' && s[i + 1] == '.' && (i == 0 || s[i - 1] == '/')
        && (i + 2 == s.len() || s[i + 2] == '/')
}

/// Whether a path has a `..` component, by which it could leave the rootfs.
pub open spec fn has_parent_component(s: Seq<char>) -> bool {
    exists|i: int| is_parent_component_at(s, i)
}

/// `s` without its leading slashes.
pub open spec fn strip_leading_slashes(s: Seq<char>) -> Seq<char>
    decreases s.len(),
{
    if s.len() > 0 && s[0] == '/' {
        strip_leading_slashes(s.drop_first())
    } else {
        s
    }
}

/// Where a path given inside the container lies on the host: under `rootfs`.
/// A `Spec` error where the path has a `..` component.
pub fn resolve_in_rootfs(rootfs: &str, dest: &str) -> (r: Result<String, Error>)
    ensures
        r is Ok <==> !has_parent_component(dest@),
        r matches Ok(p) ==> p@ == rootfs@ + "/"@ + strip_leading_slashes(dest@),
        r matches Err(e) ==> e.err_type == ErrorType::Spec,
{
    let n = dest.unicode_len();
    let mut i: usize = 0;
    while n >= 2 && i <= n - 2
        invariant
            n == dest@.len(),
            i <= n,
            forall|j: int| 0 <= j < i ==> !is_parent_component_at(dest@, j),
        decreases n - i,
    {
        if dest.get_char(i) == '.' && dest.get_char(i + 1) == '.' && (i == 0 || dest.get_char(
            i - 1,
        ) == '/') && (i + 2 == n || dest.get_char(i + 2) == '/') {
            assert(is_parent_component_at(dest@, i as int));
            return Err(Error::spec("mount destination leaves the rootfs".to_string()));
        }
        i = i + 1;
    }
    assert(!has_parent_component(dest@));
    let mut k: usize = 0;
    assert(dest@.subrange(0, n as int) =~= dest@);
    while k < n && dest.get_char(k) == '/'
        invariant
            n == dest@.len(),
            k <= n,
            strip_leading_slashes(dest@) == strip_leading_slashes(dest@.subrange(k as int, n as int)),
        decreases n - k,
    {
        assert(dest@.subrange(k as int, n as int).drop_first() =~= dest@.subrange(k + 1, n as int));
        k = k + 1;
    }
    Ok(join_path(rootfs, dest.substring_char(k, n)))
}

/// A device node to create inside the rootfs.
pub struct DeviceNode {
    /// Its path inside the container.
    pub path: String,
    /// `c` for a character device, `b` for a block device, `p` for a FIFO.
    pub kind: char,
    pub major: u64,
    pub minor: u64,
    pub mode: u32,
}

/// The permission bits of the default devices.
pub const DEFAULT_DEVICE_MODE: u32 = 0o666;

/// The devices every container gets: path, major and minor number; all
/// character devices with mode `0666`.
pub open spec fn default_device_table() -> Seq<(Seq<char>, u64, u64)> {
    seq![
        ("/dev/null"@, 1u64, 3u64),
        ("/dev/zero"@, 1u64, 5u64),
        ("/dev/full"@, 1u64, 7u64),
        ("/dev/random"@, 1u64, 8u64),
        ("/dev/urandom"@, 1u64, 9u64),
        ("/dev/tty"@, 5u64, 0u64),
    ]
}

fn char_device(path: &str, major: u64, minor: u64) -> (r: DeviceNode)
    ensures
        r.path@ == path@,
        r.kind == 'c',
        r.major == major,
        r.minor == minor,
        r.mode == DEFAULT_DEVICE_MODE,
{
    DeviceNode { path: path.to_string(), kind: 'c', major, minor, mode: DEFAULT_DEVICE_MODE }
}

/// The devices every container gets, in the order they are created.
pub fn default_devices() -> (r: Vec<DeviceNode>)
    ensures
        r@.len() == default_device_table().len(),
        forall|i: int|
            0 <= i < r@.len() ==> (#[trigger] r@[i]).path@ == default_device_table()[i].0
                && r@[i].major == default_device_table()[i].1 && r@[i].minor
                == default_device_table()[i].2 && r@[i].kind == 'c' && r@[i].mode
                == DEFAULT_DEVICE_MODE,
{
    let mut r: Vec<DeviceNode> = Vec::new();
    r.push(char_device("/dev/null", 1, 3));
    r.push(char_device("/dev/zero", 1, 5));
    r.push(char_device("/dev/full", 1, 7));
    r.push(char_device("/dev/random", 1, 8));
    r.push(char_device("/dev/urandom", 1, 9));
    r.push(char_device("/dev/tty", 5, 0));
    r
}

/// The links every container gets: target, then the link's path.
pub open spec fn default_link_table() -> Seq<(Seq<char>, Seq<char>)> {
    seq![
        ("/proc/self/fd"@, "/dev/fd"@),
        ("/proc/self/fd/0"@, "/dev/stdin"@),
        ("/proc/self/fd/1"@, "/dev/stdout"@),
        ("/proc/self/fd/2"@, "/dev/stderr"@),
        ("/proc/kcore"@, "/dev/core"@),
    ]
}

fn link(target: &str, path: &str) -> (r: (String, String))
    ensures
        r.0@ == target@,
        r.1@ == path@,
{
    (target.to_string(), path.to_string())
}

/// The links every container gets, as (target, path), in order.
pub fn default_symlinks() -> (r: Vec<(String, String)>)
    ensures
        r@.len() == default_link_table().len(),
        forall|i: int|
            0 <= i < r@.len() ==> (#[trigger] r@[i]).0@ == default_link_table()[i].0 && r@[i].1@
                == default_link_table()[i].1,
{
    let mut r: Vec<(String, String)> = Vec::new();
    r.push(link("/proc/self/fd", "/dev/fd"));
    r.push(link("/proc/self/fd/0", "/dev/stdin"));
    r.push(link("/proc/self/fd/1", "/dev/stdout"));
    r.push(link("/proc/self/fd/2", "/dev/stderr"));
    r.push(link("/proc/kcore", "/dev/core"));
    r
}

/// The `errno` by which `mknod` and `symlink` report a path that exists.
pub const EEXIST: i32 = 17;

/// Whether creating a default node went through: it succeeded, or the node
/// was there already.
pub open spec fn node_created(errno: Option<i32>) -> bool {
    match errno {
        None => true,
        Some(e) => e == EEXIST,
    }
}

/// The outcome of creating one default device or link, from the `errno` the
/// call failed with, if any: a node that exists already counts as created.
pub fn default_node_outcome(errno: Option<i32>) -> (r: Result<(), Error>)
    ensures
        r is Ok <==> node_created(errno),
        r matches Err(e) ==> e.err_type == ErrorType::Runtime,
{
    match errno {
        None => Ok(()),
        Some(e) => if e == EEXIST {
            Ok(())
        } else {
            Err(Error::runtime("error creating default device".to_string()))
        },
    }
}

/// Creating the default devices again on a rootfs that has them goes
/// through: every call that finds its node present counts as a success.
pub proof fn lemma_default_devices_rerun(errnos: Seq<Option<i32>>)
    requires
        forall|i: int| 0 <= i < errnos.len() ==> #[trigger] errnos[i] == Some(EEXIST),
    ensures
        forall|i: int| 0 <= i < errnos.len() ==> node_created(#[trigger] errnos[i]),
{
}

/// One step of the child's preparation of its environment.
#[derive(Clone, Copy, Debug, PartialEq, Eq, Structural)]
pub enum SetupStep {
    /// Open a pseudo-terminal and hand its master to the supervisor.
    Terminal,
    /// Bind-mount the rootfs onto itself, with private propagation.
    BindRootfs,
    /// Apply the configuration's mounts.
    SpecMounts,
    /// Create the configuration's devices.
    SpecDevices,
    /// Create the default devices.
    DefaultDevices,
    /// Create the default links.
    DefaultLinks,
    /// Make the rootfs the root.
    PivotRoot,
}

/// The steps the child takes, in order, for a process that asks for a
/// terminal or not and a configuration with mounts or devices or not.
pub open spec fn setup_plan(terminal: bool, mounts: bool, devices: bool) -> Seq<SetupStep> {
    (if terminal { seq![SetupStep::Terminal] } else { Seq::empty() })
        + seq![SetupStep::BindRootfs]
        + (if mounts { seq![SetupStep::SpecMounts] } else { Seq::empty() })
        + (if devices { seq![SetupStep::SpecDevices] } else { Seq::empty() })
        + seq![SetupStep::DefaultDevices, SetupStep::DefaultLinks, SetupStep::PivotRoot]
}

/// The steps the child takes, in order.
pub fn setup_steps(terminal: bool, mounts: bool, devices: bool) -> (r: Vec<SetupStep>)
    ensures
        r@ == setup_plan(terminal, mounts, devices),
{
    let mut r: Vec<SetupStep> = Vec::new();
    if terminal {
        r.push(SetupStep::Terminal);
    }
    r.push(SetupStep::BindRootfs);
    if mounts {
        r.push(SetupStep::SpecMounts);
    }
    if devices {
        r.push(SetupStep::SpecDevices);
    }
    r.push(SetupStep::DefaultDevices);
    r.push(SetupStep::DefaultLinks);
    r.push(SetupStep::PivotRoot);
    assert(r@ =~= setup_plan(terminal, mounts, devices));
    r
}

/// The start of the message a failed step sends over the init-lock.
pub open spec fn failure_prefix(step: SetupStep) -> Seq<char> {
    match step {
        SetupStep::Terminal => "error setting up terminal "@,
        SetupStep::BindRootfs => "error mounting rootfs "@,
        SetupStep::SpecMounts => "error mounting devices "@,
        SetupStep::SpecDevices => "error creating devices "@,
        SetupStep::DefaultDevices => "error creating default devices "@,
        SetupStep::DefaultLinks => "error creating default symlinks "@,
        SetupStep::PivotRoot => "error pivot_root "@,
    }
}

impl SetupStep {
    /// The message the child sends over the init-lock when this step fails
    /// with `cause`: never the success message `0`.
    pub fn failure_message(&self, cause: &str) -> (r: String)
        ensures
            r@ == failure_prefix(*self) + cause@,
            r@ != "0"@,
    {
        let prefix = match *self {
            SetupStep::Terminal => "error setting up terminal ",
            SetupStep::BindRootfs => "error mounting rootfs ",
            SetupStep::SpecMounts => "error mounting devices ",
            SetupStep::SpecDevices => "error creating devices ",
            SetupStep::DefaultDevices => "error creating default devices ",
            SetupStep::DefaultLinks => "error creating default symlinks ",
            SetupStep::PivotRoot => "error pivot_root ",
        };
        let mut r = prefix.to_string();
        r.append(cause);
        proof {
            reveal_strlit("0");
            reveal_strlit("error setting up terminal ");
            reveal_strlit("error mounting rootfs ");
            reveal_strlit("error mounting devices ");
            reveal_strlit("error creating devices ");
            reveal_strlit("error creating default devices ");
            reveal_strlit("error creating default symlinks ");
            reveal_strlit("error pivot_root ");
            assert(r@.len() >= 2);
        }
        r
    }
}

} // verus!
