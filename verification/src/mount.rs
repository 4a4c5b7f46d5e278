//! Mount decisions: where a device is mounted, which driver handles each
//! filesystem type, and the arguments of the userspace helpers.

use vstd::prelude::*;
use crate::detect::{FsType, kernel_name_of};
use crate::drives::opt_view;
use crate::ops::strings_view;
use crate::text::{chars_of, push_char};

verus! {

/// Mount options common to all filesystems.
#[derive(Debug, Clone)]
pub struct MountOptions {
    /// Mount read-only
    pub read_only: bool,
    /// Mount point override; if `None`, uses `/mnt/ironkey/<devname>`
    pub mount_point: Option<String>,
    /// Passphrase for encrypted volumes (LUKS / BitLocker)
    pub passphrase: Option<String>,
    /// Recovery key path for BitLocker
    pub recovery_key_path: Option<String>,
}

/// The value of mount options: paths and passphrase by their characters.
pub struct MountOptionsModel {
    pub read_only: bool,
    pub mount_point: Option<Seq<char>>,
    pub passphrase: Option<Seq<char>>,
    pub recovery_key_path: Option<Seq<char>>,
}

impl View for MountOptions {
    type V = MountOptionsModel;

    open spec fn view(&self) -> MountOptionsModel {
        MountOptionsModel {
            read_only: self.read_only,
            mount_point: opt_view(self.mount_point),
            passphrase: opt_view(self.passphrase),
            recovery_key_path: opt_view(self.recovery_key_path),
        }
    }
}

impl Default for MountOptions {
    fn default() -> (o: Self)
        ensures
            !o.read_only,
            o.mount_point is None,
            o.passphrase is None,
            o.recovery_key_path is None,
    {
        MountOptions { read_only: false, mount_point: None, passphrase: None, recovery_key_path: None }
    }
}

/// A handle to an active mount. Dropping this does NOT unmount.
#[derive(Debug, Clone)]
pub struct MountHandle {
    /// The device that was mounted
    pub device: String,
    /// The effective mount point
    pub mount_point: String,
    /// The filesystem type used for the mount
    pub fs_type: FsType,
}

/// Why a mount cannot go ahead.
#[derive(Debug, Clone, Copy, PartialEq, Eq, Structural)]
pub enum MountError {
    /// A LUKS volume needs a passphrase
    PassphraseRequired,
    /// A BitLocker volume needs a passphrase or a recovery key
    BitLockerKeyRequired,
    /// The filesystem type has no kernel driver to mount it with
    NoKernelDriver(FsType),
}

/// Which driver mounts a filesystem type.
#[derive(Debug, Clone, Copy, PartialEq, Eq, Structural)]
pub enum MountRoute {
    /// `cryptsetup open`, then a kernel mount of the unlocked device
    Luks,
    /// `dislocker-fuse`, then a loop mount of its virtual disk
    BitLocker,
    /// `apfs-fuse` (read-only)
    Apfs,
    /// The `ntfs3` kernel driver, falling back to `ntfs-3g`
    Ntfs,
    /// A kernel-native mount
    Generic,
}

/// The driver for each filesystem type.
pub open spec fn route_of(fs: FsType) -> MountRoute {
    match fs {
        FsType::Luks => MountRoute::Luks,
        FsType::BitLocker => MountRoute::BitLocker,
        FsType::Apfs => MountRoute::Apfs,
        FsType::Ntfs => MountRoute::Ntfs,
        _ => MountRoute::Generic,
    }
}

/// Which driver mounts `fs`.
pub fn mount_route(fs: FsType) -> (r: MountRoute)
    ensures
        r == route_of(fs),
{
    match fs {
        FsType::Luks => MountRoute::Luks,
        FsType::BitLocker => MountRoute::BitLocker,
        FsType::Apfs => MountRoute::Apfs,
        FsType::Ntfs => MountRoute::Ntfs,
        _ => MountRoute::Generic,
    }
}

/// The filesystem type actually mounted: the requested one, or the detected
/// one when `Auto` was requested.
pub fn effective_fs_type(requested: FsType, detected: FsType) -> (r: FsType)
    ensures
        r == (if requested == FsType::Auto { detected } else { requested }),
{
    if requested == FsType::Auto { detected } else { requested }
}

/// The filesystem type a mount goes on with once detection has run: the
/// requested one, or what detection gave when `Auto` was requested, a
/// detection failure included, which is handed back unchanged. `detection`
/// is consulted only for `Auto`.
pub fn resolve_fs_type<E>(requested: FsType, detection: Result<FsType, E>) -> (r: Result<FsType, E>)
    ensures
        requested == FsType::Auto ==> r == detection,
        requested != FsType::Auto ==> r == Ok::<FsType, E>(requested),
{
    if requested == FsType::Auto {
        detection
    } else {
        Ok(requested)
    }
}

/// The mount point: the override from the options, or
/// `/mnt/ironkey/<device file name>` (`disk` when the path has none).
pub open spec fn mount_point_for(device_name: Option<Seq<char>>, override_point: Option<Seq<char>>) -> Seq<char> {
    match override_point {
        Some(p) => p,
        None => "/mnt/ironkey/"@ + match device_name {
            Some(n) => n,
            None => "disk"@,
        },
    }
}

/// Where `mount` mounts a device whose path ends in `device_name`.
pub fn mount_point(device_name: &Option<String>, opts: &MountOptions) -> (r: String)
    ensures
        r@ == mount_point_for(opt_view(*device_name), opt_view(opts.mount_point)),
{
    match &opts.mount_point {
        Some(p) => p.clone(),
        None => {
            let mut r = String::from_str("/mnt/ironkey/");
            match device_name {
                Some(n) => r.append(n.as_str()),
                None => r.append("disk"),
            }
            r
        },
    }
}

/// The kernel filesystem name for a generic mount.
pub fn generic_fs_name(fs: FsType) -> (r: Result<&'static str, MountError>)
    ensures
        match r {
            Ok(n) => kernel_name_of(fs) == Some(n@),
            Err(e) => kernel_name_of(fs) is None && e == MountError::NoKernelDriver(fs),
        },
{
    match fs.kernel_name() {
        Some(n) => Ok(n),
        None => Err(MountError::NoKernelDriver(fs)),
    }
}

/// What a mount request comes to before any driver runs: the filesystem
/// type is the requested one, or the detected one for `Auto`; a type that
/// only a kernel driver could mount and that has none is refused; otherwise
/// the mount hands back the device, its mount point and that type.
pub open spec fn mount_outcome(
    device: Seq<char>,
    requested: FsType,
    detected: FsType,
    device_name: Option<Seq<char>>,
    override_point: Option<Seq<char>>,
) -> Result<(Seq<char>, Seq<char>, FsType), MountError> {
    let fs = if requested == FsType::Auto { detected } else { requested };
    if route_of(fs) == MountRoute::Generic && kernel_name_of(fs) is None {
        Err(MountError::NoKernelDriver(fs))
    } else {
        Ok((device, mount_point_for(device_name, override_point), fs))
    }
}

/// A mount handle by its device, mount point and filesystem type.
pub open spec fn handle_view(r: Result<MountHandle, MountError>) -> Result<(Seq<char>, Seq<char>, FsType), MountError> {
    match r {
        Ok(h) => Ok((h.device@, h.mount_point@, h.fs_type)),
        Err(e) => Err(e),
    }
}

/// The handle that mounting `device` (whose path ends in `device_name`)
/// gives once its driver has run, or why no driver can mount it; `detected`
/// is what detection found, read only when `Auto` is requested.
pub fn mount_handle(
    device: &str,
    requested: FsType,
    detected: FsType,
    device_name: &Option<String>,
    opts: &MountOptions,
) -> (r: Result<MountHandle, MountError>)
    ensures
        handle_view(r) == mount_outcome(device@, requested, detected, opt_view(*device_name), opt_view(opts.mount_point)),
{
    let fs = effective_fs_type(requested, detected);
    if mount_route(fs) == MountRoute::Generic {
        if let Err(e) = generic_fs_name(fs) {
            return Err(e);
        }
    }
    Ok(MountHandle { device: String::from_str(device), mount_point: mount_point(device_name, opts), fs_type: fs })
}

/// A mount that goes through hands back the device it was given and a real
/// filesystem type (never `Auto`): the requested one, or the detected one
/// when `Auto` was requested, which one of the special drivers (LUKS,
/// BitLocker, APFS, NTFS) or a kernel driver mounts; it is mounted where
/// the options said, when they named a mount point, and under
/// `/mnt/ironkey/` otherwise.
pub proof fn lemma_mount_handle(
    device: Seq<char>,
    requested: FsType,
    detected: FsType,
    device_name: Option<Seq<char>>,
    override_point: Option<Seq<char>>,
)
    ensures
        mount_outcome(device, requested, detected, device_name, override_point) matches Ok((d, p, fs)) ==> {
            &&& d == device
            &&& fs != FsType::Auto
            &&& fs == (if requested == FsType::Auto { detected } else { requested })
            &&& (fs == FsType::Luks || fs == FsType::BitLocker || fs == FsType::Apfs || fs == FsType::Ntfs
                || kernel_name_of(fs) is Some)
            &&& override_point matches Some(q) ==> p == q
            &&& override_point is None ==> p.take(13) == "/mnt/ironkey/"@
        },
{
    reveal_strlit("/mnt/ironkey/");
    if let Ok((d, p, fs)) = mount_outcome(device, requested, detected, device_name, override_point) {
        if override_point is None {
            let n = match device_name { Some(n) => n, None => "disk"@ };
            assert(("/mnt/ironkey/"@ + n).take(13) =~= "/mnt/ironkey/"@);
        }
    }
}

/// The device-mapper name for an unlocked LUKS volume:
/// `ironkey_<device file name>` (`ironkey_ironkey_luks` without one).
pub open spec fn luks_mapper_name(device_name: Option<Seq<char>>) -> Seq<char> {
    "ironkey_"@ + match device_name {
        Some(n) => n,
        None => "ironkey_luks"@,
    }
}

/// The LUKS passphrase, which must be given.
pub fn luks_passphrase(opts: &MountOptions) -> (r: Result<String, MountError>)
    ensures
        match r {
            Ok(p) => opt_view(opts.passphrase) == Some(p@),
            Err(e) => opts.passphrase is None && e == MountError::PassphraseRequired,
        },
{
    match &opts.passphrase {
        Some(p) => Ok(p.clone()),
        None => Err(MountError::PassphraseRequired),
    }
}

/// The mapper name and the `cryptsetup` arguments that open a LUKS volume.
pub fn luks_open_command(device: &str, device_name: &Option<String>) -> (r: (String, Vec<String>))
    ensures
        r.0@ == luks_mapper_name(opt_view(*device_name)),
        strings_view(r.1@) == seq!["open"@, "--type"@, "luks"@, device@, r.0@],
{
    let mut mapper = String::from_str("ironkey_");
    match device_name {
        Some(n) => mapper.append(n.as_str()),
        None => mapper.append("ironkey_luks"),
    }
    let mut args: Vec<String> = Vec::new();
    args.push(String::from_str("open"));
    args.push(String::from_str("--type"));
    args.push(String::from_str("luks"));
    args.push(String::from_str(device));
    args.push(mapper.clone());
    assert(strings_view(args@) =~= seq!["open"@, "--type"@, "luks"@, device@, mapper@]);
    (mapper, args)
}

/// The path of the unlocked LUKS device: `/dev/mapper/<mapper>`.
pub fn mapper_path(mapper: &str) -> (r: String)
    ensures
        r@ == "/dev/mapper/"@ + mapper@,
{
    let mut r = String::from_str("/dev/mapper/");
    r.append(mapper);
    r
}

/// What `Path::with_extension` gives for a path and an extension, both taken
/// by their characters.
pub uninterp spec fn path_with_extension(path: Seq<char>, ext: Seq<char>) -> Seq<char>;

/// `std::path::Path::with_extension` on a path held as a string.
/// Trusted: the result is the named function of the path and the extension;
/// how the old extension is found and replaced is not restated here. Both
/// arguments are UTF-8, so the result converts back without loss. The
/// standard library panics on an extension that holds a path separator, so
/// none is admitted.
#[verifier::external_body]
fn with_extension(path: &str, ext: &str) -> (r: String)
    requires
        !ext@.contains('/'),
    ensures
        r@ == path_with_extension(path@, ext@),
{
    std::path::Path::new(path).with_extension(ext).to_string_lossy().into_owned()
}

/// `name` inside directory `dir`: joined with a `/` unless `dir` is empty
/// or already ends in one.
pub open spec fn path_in(dir: Seq<char>, name: Seq<char>) -> Seq<char> {
    if dir.len() == 0 {
        name
    } else if dir.last() == '/' {
        dir + name
    } else {
        dir + seq!['/'] + name
    }
}

/// Where BitLocker mounting stages its work: `dislocker-fuse` unlocks the
/// volume into a directory named after the mount point with the extension
/// `_dislocker`, and the unlocked virtual disk is the file `dislocker-file`
/// inside it. Returns the staging directory and the virtual disk.
pub fn bitlocker_paths(mount_point: &str) -> (r: (String, String))
    ensures
        r.0@ == path_with_extension(mount_point@, "_dislocker"@),
        r.1@ == path_in(r.0@, "dislocker-file"@),
{
    proof {
        reveal_strlit("_dislocker");
        assert(!"_dislocker"@.contains('/'));
    }
    let staging = with_extension(mount_point, "_dislocker");
    let mut virt = staging.clone();
    let cs = chars_of(staging.as_str());
    let n = cs.len();
    if n > 0 && cs[n - 1] != '/' {
        push_char(&mut virt, '/');
    }
    virt.append("dislocker-file");
    (staging, virt)
}

/// The `dislocker-fuse` arguments: the device, `-u <passphrase>` (preferred)
/// or `-r <recovery key>`, then `--` and the staging directory.
pub open spec fn dislocker_args_of(
    device: Seq<char>,
    staging: Seq<char>,
    passphrase: Option<Seq<char>>,
    key: Option<Seq<char>>,
) -> Option<Seq<Seq<char>>> {
    match passphrase {
        Some(p) => Some(seq![device, "-u"@, p, "--"@, staging]),
        None => match key {
            Some(k) => Some(seq![device, "-r"@, k, "--"@, staging]),
            None => None,
        },
    }
}

/// The arguments that unlock a BitLocker volume into `staging`.
pub fn dislocker_args(device: &str, staging: &str, opts: &MountOptions) -> (r: Result<Vec<String>, MountError>)
    ensures
        match r {
            Ok(a) => dislocker_args_of(device@, staging@, opt_view(opts.passphrase), opt_view(opts.recovery_key_path))
                == Some(strings_view(a@)),
            Err(e) => dislocker_args_of(device@, staging@, opt_view(opts.passphrase), opt_view(opts.recovery_key_path))
                is None && e == MountError::BitLockerKeyRequired,
        },
{
    let mut args: Vec<String> = Vec::new();
    args.push(String::from_str(device));
    if let Some(p) = &opts.passphrase {
        args.push(String::from_str("-u"));
        args.push(p.clone());
    } else if let Some(k) = &opts.recovery_key_path {
        args.push(String::from_str("-r"));
        args.push(k.clone());
    } else {
        return Err(MountError::BitLockerKeyRequired);
    }
    args.push(String::from_str("--"));
    args.push(String::from_str(staging));
    proof {
        let expected = dislocker_args_of(device@, staging@, opt_view(opts.passphrase), opt_view(opts.recovery_key_path));
        assert(strings_view(args@) =~= expected->0);
    }
    Ok(args)
}

/// The `mount -o` options for the BitLocker virtual disk.
pub fn loop_mount_options(read_only: bool) -> (r: &'static str)
    ensures
        r@ == (if read_only { "loop,ro"@ } else { "loop"@ }),
{
    if read_only { "loop,ro" } else { "loop" }
}

/// The `ntfs-3g` arguments: device, mount point, and `-o ro` when read-only.
pub fn ntfs3g_args(device: &str, mount_point: &str, read_only: bool) -> (r: Vec<String>)
    ensures
        strings_view(r@) == (if read_only {
            seq![device@, mount_point@, "-o"@, "ro"@]
        } else {
            seq![device@, mount_point@]
        }),
{
    let mut args: Vec<String> = Vec::new();
    args.push(String::from_str(device));
    args.push(String::from_str(mount_point));
    if read_only {
        args.push(String::from_str("-o"));
        args.push(String::from_str("ro"));
    }
    assert(strings_view(args@) =~= (if read_only {
        seq![device@, mount_point@, "-o"@, "ro"@]
    } else {
        seq![device@, mount_point@]
    }));
    args
}

/// The `apfs-fuse` arguments: `-o allow_other`, the device, the mount point.
pub fn apfs_args(device: &str, mount_point: &str) -> (r: Vec<String>)
    ensures
        strings_view(r@) == seq!["-o"@, "allow_other"@, device@, mount_point@],
{
    let mut args: Vec<String> = Vec::new();
    args.push(String::from_str("-o"));
    args.push(String::from_str("allow_other"));
    args.push(String::from_str(device));
    args.push(String::from_str(mount_point));
    assert(strings_view(args@) =~= seq!["-o"@, "allow_other"@, device@, mount_point@]);
    args
}

} // verus!
