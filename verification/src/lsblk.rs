//! Block-device inventory: turns what sysfs holds about each block device
//! into a [`BlkInfo`]. Reading sysfs is the caller's part; each file's
//! outcome arrives here as a [`SysfsRead`].
use vstd::prelude::*;
use vstd::string::StringExecFns;

use crate::text::{
    decimal, first_value, find_value, key_values, pair_views, pairs_of, parse_u64,
    parse_u64_text, push_decimal, same_text, split_words, trim, trimmed, views, words,
};

verus! {

/// What is known about one block device.
#[derive(Debug, Clone)]
pub struct BlkInfo {
    /// Major and minor number, such as `8:0`.
    pub maj_min: String,
    /// Disk sequence number.
    pub disk_seq: u64,
    /// Device name, such as `sda`.
    pub name: String,
    /// Kernel name of the block device.
    pub kname: String,
    /// Device model.
    pub model: Option<String>,
    /// Size in bytes.
    pub size: u64,
    /// Whether the device is removable.
    pub removable: bool,
    /// UUID of the device.
    pub uuid: Option<String>,
    /// WWID of the device.
    pub wwid: Option<String>,
    /// Whether the device is read-only.
    pub readonly: bool,
    /// Device node, such as `/dev/sda`.
    pub path: Option<String>,
    /// Device node by sequence number.
    pub path_by_seq: Option<String>,
    /// Subsystem of the device: `nvme`, `scsi` or `unknown`.
    pub subsystem: Option<String>,
}

/// The outcome of reading one sysfs file.
#[derive(Debug, Clone)]
pub enum SysfsRead {
    /// The file's contents.
    Content(String),
    /// The file does not exist.
    NotFound,
    /// The file exists but could not be read.
    Failed,
}

/// What sysfs holds about one block device, as read by the caller.
#[derive(Debug, Clone)]
pub struct BlkSysfs {
    /// The device's directory name under `/sys/block`.
    pub kname: String,
    /// `dev`
    pub dev: SysfsRead,
    /// `diskseq`
    pub diskseq: SysfsRead,
    /// `uevent`
    pub uevent: SysfsRead,
    /// `device/model`
    pub model: SysfsRead,
    /// `size`, in 512-byte sectors
    pub size: SysfsRead,
    /// `removable`
    pub removable: SysfsRead,
    /// `uuid`
    pub uuid: SysfsRead,
    /// `wwid`
    pub wwid: SysfsRead,
    /// `ro`
    pub ro: SysfsRead,
    /// Whether `/dev/<kname>` exists.
    pub dev_node_exists: bool,
    /// Whether the node that [`diskseq_path`] names exists.
    pub diskseq_node_exists: bool,
    /// Where `device/subsystem` resolves to, if it resolves.
    pub subsystem_link: Option<String>,
}

/// The attribute whose file stopped the assembly of a [`BlkInfo`].
#[derive(Debug, Clone, Copy, PartialEq, Eq)]
pub enum BlkAttr {
    Dev,
    DiskSeq,
    Uevent,
    Model,
    Size,
    Removable,
    Uuid,
    Wwid,
    ReadOnly,
}

/// Why an attribute could not be read.
#[derive(Debug, Clone, Copy, PartialEq, Eq)]
pub enum BlkReadFailure {
    /// The file is missing or unreadable.
    Unreadable,
    /// The file does not hold a decimal number.
    NotANumber,
}

/// Why a [`BlkInfo`] could not be assembled.
#[derive(Debug, Clone, Copy, PartialEq, Eq)]
pub struct BlkInfoError {
    pub attr: BlkAttr,
    pub failure: BlkReadFailure,
}

/// A required text file: its trimmed contents.
pub open spec fn text_result(r: SysfsRead) -> Result<Seq<char>, BlkReadFailure> {
    match r {
        SysfsRead::Content(s) => Ok(trim(s@)),
        _ => Err(BlkReadFailure::Unreadable),
    }
}

/// A required number file: the number its trimmed contents spell.
pub open spec fn number_result(r: SysfsRead) -> Result<u64, BlkReadFailure> {
    match text_result(r) {
        Ok(t) => match parse_u64(t) {
            Some(n) => Ok(n),
            None => Err(BlkReadFailure::NotANumber),
        },
        Err(e) => Err(e),
    }
}

/// An optional text file: absent when it does not exist.
pub open spec fn optional_text_result(r: SysfsRead) -> Result<Option<Seq<char>>, BlkReadFailure> {
    match r {
        SysfsRead::Content(s) => Ok(Some(trim(s@))),
        SysfsRead::NotFound => Ok(None),
        SysfsRead::Failed => Err(BlkReadFailure::Unreadable),
    }
}

/// A `key=value` list file: its pairs.
pub open spec fn pairs_result(r: SysfsRead) -> Result<Seq<(Seq<char>, Seq<char>)>, BlkReadFailure> {
    match text_result(r) {
        Ok(t) => Ok(pairs_of(words(trim(t)))),
        Err(e) => Err(e),
    }
}

/// The first error met while assembling a [`BlkInfo`], in the order the
/// attributes are read: dev, diskseq, uevent, model, size, removable, uuid,
/// wwid, ro.
pub open spec fn blk_error(raw: BlkSysfs) -> Option<BlkInfoError> {
    if let Err(f) = text_result(raw.dev) {
        Some(BlkInfoError { attr: BlkAttr::Dev, failure: f })
    } else if let Err(f) = number_result(raw.diskseq) {
        Some(BlkInfoError { attr: BlkAttr::DiskSeq, failure: f })
    } else if let Err(f) = pairs_result(raw.uevent) {
        Some(BlkInfoError { attr: BlkAttr::Uevent, failure: f })
    } else if let Err(f) = optional_text_result(raw.model) {
        Some(BlkInfoError { attr: BlkAttr::Model, failure: f })
    } else if let Err(f) = number_result(raw.size) {
        Some(BlkInfoError { attr: BlkAttr::Size, failure: f })
    } else if let Err(f) = number_result(raw.removable) {
        Some(BlkInfoError { attr: BlkAttr::Removable, failure: f })
    } else if let Err(f) = optional_text_result(raw.uuid) {
        Some(BlkInfoError { attr: BlkAttr::Uuid, failure: f })
    } else if let Err(f) = optional_text_result(raw.wwid) {
        Some(BlkInfoError { attr: BlkAttr::Wwid, failure: f })
    } else if let Err(f) = number_result(raw.ro) {
        Some(BlkInfoError { attr: BlkAttr::ReadOnly, failure: f })
    } else {
        None
    }
}

/// Whether the size reaches the point where the device's size in bytes is
/// computed: everything read before it was read.
pub open spec fn size_is_computed(raw: BlkSysfs) -> bool {
    &&& text_result(raw.dev) is Ok
    &&& number_result(raw.diskseq) is Ok
    &&& pairs_result(raw.uevent) is Ok
    &&& optional_text_result(raw.model) is Ok
    &&& number_result(raw.size) is Ok
}

/// The device's size in bytes: sysfs counts it in 512-byte sectors,
/// whatever the device's logical block size.
pub open spec fn blk_size(raw: BlkSysfs) -> int {
    number_result(raw.size)->Ok_0 * 512
}

/// The size in bytes fits in a `u64` wherever it is computed.
pub open spec fn size_in_range(raw: BlkSysfs) -> bool {
    size_is_computed(raw) ==> blk_size(raw) <= u64::MAX
}

/// What an optional string holds.
pub open spec fn opt_view(o: Option<String>) -> Option<Seq<char>> {
    match o {
        Some(s) => Some(s@),
        None => None,
    }
}

/// The subsystem name for where `device/subsystem` resolves to.
pub open spec fn subsystem_name(link: Seq<char>) -> Seq<char> {
    if link == "/sys/class/nvme"@ {
        "nvme"@
    } else if link == "/sys/bus/scsi"@ {
        "scsi"@
    } else {
        "unknown"@
    }
}

/// `device/subsystem` resolving to `/sys/class/nvme` names an NVMe device,
/// to `/sys/bus/scsi` a SCSI one, and to anything else an unknown one.
pub proof fn law_subsystem_names(link: Seq<char>)
    ensures
        subsystem_name("/sys/class/nvme"@) == "nvme"@,
        subsystem_name("/sys/bus/scsi"@) == "scsi"@,
        link != "/sys/class/nvme"@ && link != "/sys/bus/scsi"@ ==> subsystem_name(link)
            == "unknown"@,
{
    reveal_strlit("/sys/class/nvme");
    reveal_strlit("/sys/bus/scsi");
    assert("/sys/class/nvme"@.len() != "/sys/bus/scsi"@.len());
}

/// The device node named by a disk sequence number.
pub open spec fn diskseq_node(seq: u64) -> Seq<char> {
    "/dev/disk/by-diskseq/"@ + decimal(seq as nat)
}

/// `info` is what `raw` describes, given that nothing failed.
pub open spec fn describes(info: BlkInfo, raw: BlkSysfs) -> bool {
    &&& describes_all_but_size(info, raw)
    &&& info.size == blk_size(raw)
}

/// The device's size in bytes counted in 512-byte sectors, wrapping as the
/// shift by nine bits does.
pub open spec fn sector_bytes(raw: BlkSysfs) -> int {
    (number_result(raw.size)->Ok_0 * 512) % 0x1_0000_0000_0000_0000
}

/// Every attribute of `info` but its size is what `raw` describes.
pub open spec fn describes_all_but_size(info: BlkInfo, raw: BlkSysfs) -> bool {
    let disk_seq = number_result(raw.diskseq)->Ok_0;
    &&& info.maj_min@ == text_result(raw.dev)->Ok_0
    &&& info.disk_seq == disk_seq
    &&& info.name@ == match first_value(pairs_result(raw.uevent)->Ok_0, "DEVNAME"@) {
        Some(v) => v,
        None => Seq::<char>::empty(),
    }
    &&& info.kname@ == raw.kname@
    &&& opt_view(info.model) == optional_text_result(raw.model)->Ok_0
    &&& info.removable == (number_result(raw.removable)->Ok_0 != 0)
    &&& opt_view(info.uuid) == optional_text_result(raw.uuid)->Ok_0
    &&& opt_view(info.wwid) == optional_text_result(raw.wwid)->Ok_0
    &&& info.readonly == (number_result(raw.ro)->Ok_0 != 0)
    &&& opt_view(info.path) == if raw.dev_node_exists {
        Some("/dev/"@ + raw.kname@)
    } else {
        None
    }
    &&& opt_view(info.path_by_seq) == if raw.diskseq_node_exists {
        Some(diskseq_node(disk_seq))
    } else {
        None
    }
    &&& opt_view(info.subsystem) == match raw.subsystem_link {
        Some(link) => Some(subsystem_name(link@)),
        None => None,
    }
}

/// The trimmed contents of a sysfs file.
fn read_str(r: &SysfsRead) -> (t: Result<String, BlkReadFailure>)
    ensures
        match t {
            Ok(s) => text_result(*r) == Ok::<Seq<char>, BlkReadFailure>(s@),
            Err(f) => text_result(*r) == Err::<Seq<char>, BlkReadFailure>(f),
        },
{
    match r {
        SysfsRead::Content(s) => Ok(trimmed(s.as_str())),
        _ => Err(BlkReadFailure::Unreadable),
    }
}

/// The decimal number a sysfs file holds.
fn read_int(r: &SysfsRead) -> (n: Result<u64, BlkReadFailure>)
    ensures
        n == number_result(*r),
{
    match read_str(r) {
        Ok(t) => match parse_u64_text(t.as_str()) {
            Some(n) => Ok(n),
            None => Err(BlkReadFailure::NotANumber),
        },
        Err(f) => Err(f),
    }
}

/// The trimmed contents of a sysfs file that may be absent.
fn read_str_optional(r: &SysfsRead) -> (t: Result<Option<String>, BlkReadFailure>)
    ensures
        match t {
            Ok(o) => optional_text_result(*r) == Ok::<Option<Seq<char>>, BlkReadFailure>(
                opt_view(o),
            ),
            Err(f) => optional_text_result(*r) == Err::<Option<Seq<char>>, BlkReadFailure>(f),
        },
{
    match r {
        SysfsRead::Content(s) => Ok(Some(trimmed(s.as_str()))),
        SysfsRead::NotFound => Ok(None),
        SysfsRead::Failed => Err(BlkReadFailure::Unreadable),
    }
}

/// The `key=value` pairs among the words of a sysfs file.
fn read_kv(r: &SysfsRead) -> (p: Result<Vec<(String, String)>, BlkReadFailure>)
    ensures
        match p {
            Ok(v) => pairs_result(*r) == Ok::<Seq<(Seq<char>, Seq<char>)>, BlkReadFailure>(
                pair_views(v@),
            ),
            Err(f) => pairs_result(*r) == Err::<Seq<(Seq<char>, Seq<char>)>, BlkReadFailure>(f),
        },
{
    match read_str(r) {
        Ok(t) => {
            let again = trimmed(t.as_str());
            let list = split_words(again.as_str());
            Ok(key_values(&list))
        },
        Err(f) => Err(f),
    }
}

/// The device node that the disk sequence number in `diskseq` names, if the
/// file holds a number.
pub fn diskseq_path(diskseq: &SysfsRead) -> (path: Option<String>)
    ensures
        match number_result(*diskseq) {
            Ok(seq) => opt_view(path) == Some(diskseq_node(seq)),
            Err(_) => path is None,
        },
{
    match read_int(diskseq) {
        Ok(seq) => {
            let mut p = String::from_str("/dev/disk/by-diskseq/");
            push_decimal(&mut p, seq);
            Some(p)
        },
        Err(_) => None,
    }
}

/// The device node named by a kernel block-device name.
pub fn dev_path(kname: &str) -> (path: String)
    ensures
        path@ == "/dev/"@ + kname@,
{
    let mut p = String::from_str("/dev/");
    p.append(kname);
    p
}

fn subsystem_of(link: &Option<String>) -> (name: Option<String>)
    ensures
        opt_view(name) == match *link {
            Some(l) => Some(subsystem_name(l@)),
            None => None,
        },
{
    match link {
        Some(l) => {
            if same_text(l.as_str(), "/sys/class/nvme") {
                Some(String::from_str("nvme"))
            } else if same_text(l.as_str(), "/sys/bus/scsi") {
                Some(String::from_str("scsi"))
            } else {
                Some(String::from_str("unknown"))
            }
        },
        None => None,
    }
}

fn err(attr: BlkAttr, failure: BlkReadFailure) -> (e: BlkInfoError)
    ensures
        e == (BlkInfoError { attr, failure }),
{
    BlkInfoError { attr, failure }
}

/// Assembles what `raw` says about a block device, reading its attributes
/// in order and stopping at the first that cannot be read.
pub fn create_root_blk_info(raw: &BlkSysfs) -> (info: Result<BlkInfo, BlkInfoError>)
    requires
        size_in_range(*raw),
    ensures
        match info {
            Ok(info) => blk_error(*raw) is None && describes(info, *raw),
            Err(e) => blk_error(*raw) == Some(e),
        },
{
    assemble(raw, false)
}

/// Assembles what `raw` says about a block device, its size counted in
/// 512-byte sectors whatever the logical block size.
pub fn create_blk_info_in_sectors(raw: &BlkSysfs) -> (info: Result<BlkInfo, BlkInfoError>)
    ensures
        match info {
            Ok(info) => blk_error(*raw) is None && describes_all_but_size(info, *raw)
                && info.size == sector_bytes(*raw),
            Err(e) => blk_error(*raw) == Some(e),
        },
{
    assemble(raw, true)
}

fn assemble(raw: &BlkSysfs, in_sectors: bool) -> (info: Result<BlkInfo, BlkInfoError>)
    requires
        !in_sectors ==> size_in_range(*raw),
    ensures
        match info {
            Ok(info) => {
                &&& blk_error(*raw) is None
                &&& describes_all_but_size(info, *raw)
                &&& info.size == if in_sectors {
                    sector_bytes(*raw)
                } else {
                    blk_size(*raw)
                }
            },
            Err(e) => blk_error(*raw) == Some(e),
        },
{
    let maj_min = match read_str(&raw.dev) {
        Ok(t) => t,
        Err(f) => return Err(err(BlkAttr::Dev, f)),
    };
    let disk_seq = match read_int(&raw.diskseq) {
        Ok(n) => n,
        Err(f) => return Err(err(BlkAttr::DiskSeq, f)),
    };
    let pairs = match read_kv(&raw.uevent) {
        Ok(p) => p,
        Err(f) => return Err(err(BlkAttr::Uevent, f)),
    };
    let name = match find_value(&pairs, "DEVNAME") {
        Some(v) => v,
        None => String::new(),
    };
    let model = match read_str_optional(&raw.model) {
        Ok(m) => m,
        Err(f) => return Err(err(BlkAttr::Model, f)),
    };
    let sectors = match read_int(&raw.size) {
        Ok(n) => n,
        Err(f) => return Err(err(BlkAttr::Size, f)),
    };
    let size = if in_sectors {
        let shifted = sectors << 9u64;
        assert(shifted == (sectors * 512) % 0x1_0000_0000_0000_0000) by (bit_vector)
            requires
                shifted == sectors << 9u64,
        ;
        shifted
    } else {
        sectors * 512
    };
    let removable = match read_int(&raw.removable) {
        Ok(n) => n != 0,
        Err(f) => return Err(err(BlkAttr::Removable, f)),
    };
    let uuid = match read_str_optional(&raw.uuid) {
        Ok(u) => u,
        Err(f) => return Err(err(BlkAttr::Uuid, f)),
    };
    let wwid = match read_str_optional(&raw.wwid) {
        Ok(w) => w,
        Err(f) => return Err(err(BlkAttr::Wwid, f)),
    };
    let readonly = match read_int(&raw.ro) {
        Ok(n) => n != 0,
        Err(f) => return Err(err(BlkAttr::ReadOnly, f)),
    };
    let path = if raw.dev_node_exists {
        Some(dev_path(raw.kname.as_str()))
    } else {
        None
    };
    let path_by_seq = if raw.diskseq_node_exists {
        diskseq_path(&raw.diskseq)
    } else {
        None
    };
    let subsystem = subsystem_of(&raw.subsystem_link);
    Ok(BlkInfo {
        maj_min,
        disk_seq,
        name,
        kname: raw.kname.clone(),
        model,
        size,
        removable,
        uuid,
        wwid,
        readonly,
        path,
        path_by_seq,
        subsystem,
    })
}

/// The devices among `raws` whose attributes could all be read, in order.
pub open spec fn readable_devices(raws: Seq<BlkSysfs>) -> Seq<BlkSysfs>
    decreases raws.len(),
{
    if raws.len() == 0 {
        Seq::empty()
    } else {
        let rest = readable_devices(raws.drop_last());
        if blk_error(raws.last()) is None {
            rest.push(raws.last())
        } else {
            rest
        }
    }
}

/// Each readable device is one of the devices given.
proof fn lemma_readable_from(raws: Seq<BlkSysfs>)
    ensures
        forall|k: int|
            0 <= k < readable_devices(raws).len() ==> exists|j: int|
                0 <= j < raws.len() && #[trigger] readable_devices(raws)[k] == raws[j],
    decreases raws.len(),
{
    if raws.len() > 0 {
        let init = raws.drop_last();
        lemma_readable_from(init);
        assert forall|k: int| 0 <= k < readable_devices(raws).len() implies exists|j: int|
            0 <= j < raws.len() && #[trigger] readable_devices(raws)[k] == raws[j] by {
            if k < readable_devices(init).len() {
                let j = choose|j: int| 0 <= j < init.len() && readable_devices(init)[k] == init[j];
                assert(raws[j] == init[j]);
            } else {
                assert(readable_devices(raws)[k] == raws[raws.len() - 1]);
            }
        }
    }
}

/// The inventory keeps exactly the devices whose attributes can all be
/// read: each kept device is one of those given and reads without error,
/// and every device given that reads without error is kept.
pub proof fn law_inventory_keeps_readable(raws: Seq<BlkSysfs>)
    ensures
        forall|k: int|
            0 <= k < readable_devices(raws).len() ==> blk_error(#[trigger] readable_devices(raws)[k])
                is None,
        forall|k: int|
            0 <= k < readable_devices(raws).len() ==> exists|j: int|
                0 <= j < raws.len() && #[trigger] readable_devices(raws)[k] == raws[j],
        forall|j: int|
            0 <= j < raws.len() && blk_error(#[trigger] raws[j]) is None ==> readable_devices(
                raws,
            ).contains(raws[j]),
    decreases raws.len(),
{
    lemma_readable_from(raws);
    if raws.len() > 0 {
        let init = raws.drop_last();
        law_inventory_keeps_readable(init);
        let r = readable_devices(raws);
        let ri = readable_devices(init);
        assert forall|k: int| 0 <= k < r.len() implies blk_error(#[trigger] r[k]) is None by {
            if k < ri.len() {
                assert(r[k] == ri[k]);
            }
        }
        assert forall|j: int| 0 <= j < raws.len() && blk_error(#[trigger] raws[j]) is None implies r.contains(
            raws[j],
        ) by {
            if j < init.len() {
                assert(init[j] == raws[j]);
                assert(ri.contains(init[j]));
                let k = choose|k: int| 0 <= k < ri.len() && ri[k] == init[j];
                assert(r[k] == ri[k]);
            } else {
                assert(r[r.len() - 1] == raws[j]);
            }
        }
    }
}

/// Devices listed under distinct names stay distinct in the inventory: the
/// readable ones keep their names, in the order given.
pub proof fn law_inventory_names_distinct(raws: Seq<BlkSysfs>)
    requires
        forall|i: int, j: int|
            0 <= i < j < raws.len() ==> #[trigger] raws[i].kname@ != #[trigger] raws[j].kname@,
    ensures
        forall|i: int, j: int|
            0 <= i < j < readable_devices(raws).len() ==> #[trigger] readable_devices(raws)[i].kname@
                != #[trigger] readable_devices(raws)[j].kname@,
    decreases raws.len(),
{
    if raws.len() > 0 {
        let init = raws.drop_last();
        law_inventory_names_distinct(init);
        lemma_readable_from(init);
        let r = readable_devices(raws);
        assert forall|i: int, j: int| 0 <= i < j < r.len() implies #[trigger] r[i].kname@
            != #[trigger] r[j].kname@ by {
            if j < readable_devices(init).len() {
                assert(r[i] == readable_devices(init)[i]);
                assert(r[j] == readable_devices(init)[j]);
            } else {
                assert(r[j] == raws.last());
                assert(r[i] == readable_devices(init)[i]);
                let x = choose|x: int| 0 <= x < init.len() && readable_devices(init)[i] == init[x];
                assert(init[x] == raws[x]);
            }
        }
    }
}

/// The inventory of block devices: one [`BlkInfo`] for each device whose
/// attributes could all be read, in the order given; the others are skipped.
pub fn get_blk_info(raws: &Vec<BlkSysfs>) -> (infos: Vec<BlkInfo>)
    requires
        forall|i: int| 0 <= i < raws.len() ==> size_in_range(#[trigger] raws@[i]),
    ensures
        infos.len() == readable_devices(raws@).len(),
        forall|k: int|
            0 <= k < infos.len() ==> describes(#[trigger] infos@[k], readable_devices(raws@)[k]),
{
    let mut infos: Vec<BlkInfo> = Vec::new();
    let mut i: usize = 0;
    while i < raws.len()
        invariant
            0 <= i <= raws.len(),
            forall|i: int| 0 <= i < raws.len() ==> size_in_range(#[trigger] raws@[i]),
            infos.len() == readable_devices(raws@.take(i as int)).len(),
            forall|k: int|
                0 <= k < infos.len() ==> describes(
                    #[trigger] infos@[k],
                    readable_devices(raws@.take(i as int))[k],
                ),
        decreases raws.len() - i,
    {
        assert(raws@.take(i + 1).drop_last() =~= raws@.take(i as int));
        assert(raws@.take(i + 1).last() == raws@[i as int]);
        match create_root_blk_info(&raws[i]) {
            Ok(info) => {
                infos.push(info);
            },
            Err(_) => {},
        }
        i = i + 1;
    }
    assert(raws@.take(raws.len() as int) =~= raws@);
    infos
}

} // verus!
