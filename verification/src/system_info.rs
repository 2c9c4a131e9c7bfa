//! The description of the host that the agent sends to the controller.
use vstd::prelude::*;

use crate::lsblk::{
    blk_error, create_blk_info_in_sectors, describes_all_but_size, readable_devices,
    sector_bytes, BlkSysfs,
};
use crate::text::{same_text, views};

verus! {

/// A group of logical CPUs sharing a vendor and a brand.
#[derive(Debug, Clone)]
pub struct CpuInfo {
    /// The names of the CPUs in the group, in the order they were reported.
    pub names: Vec<String>,
    pub vendor_id: String,
    pub brand: String,
}

/// A mounted file system.
#[derive(Debug, Clone)]
pub struct MntInfo {
    pub kind: String,
    pub device_name: String,
    pub file_system: String,
    pub mount_point: String,
    pub total_space: u64,
    pub is_removable: bool,
    pub is_read_only: bool,
}

/// An address of a network interface.
#[derive(Debug, Clone)]
pub struct IpInfo {
    pub addr: String,
    /// 4 or 6.
    pub version: u8,
    pub prefix: u8,
}

/// A network interface.
#[derive(Debug, Clone)]
pub struct NicInfo {
    pub mac_address: String,
    pub mtu: u64,
    pub ip: Vec<IpInfo>,
}

/// A block device, its size counted in 512-byte sectors.
#[derive(Debug, Clone)]
pub struct BlkInfo {
    pub maj_min: String,
    pub disk_seq: u64,
    pub name: String,
    pub kname: String,
    pub model: Option<String>,
    pub size: u64,
    pub removable: bool,
    pub uuid: Option<String>,
    pub wwid: Option<String>,
    pub readonly: bool,
    pub path: Option<String>,
    pub path_by_seq: Option<String>,
    pub subsystem: Option<String>,
}

/// The host's system identification.
#[derive(Debug, Clone)]
pub struct UtsInfo {
    pub sysname: String,
    pub nodename: String,
    pub release: String,
    pub version: String,
    pub machine: String,
    pub domainname: String,
}

/// Everything the agent reports about its host.
#[derive(Debug, Clone)]
pub struct SystemInfo {
    pub total_memory: u64,
    pub name: Option<String>,
    pub hostname: Option<String>,
    pub kernel_version: Option<String>,
    pub cpus: Vec<CpuInfo>,
    pub mnts: Vec<MntInfo>,
    pub nics: Vec<NicInfo>,
    pub blks: Vec<BlkInfo>,
    pub uts: Option<UtsInfo>,
}

/// One logical CPU as the system reports it.
#[derive(Debug, Clone)]
pub struct CpuRecord {
    pub name: String,
    pub vendor_id: String,
    pub brand: String,
}

/// A CPU group seen as its names, vendor and brand.
pub open spec fn group_view(g: CpuInfo) -> (Seq<Seq<char>>, Seq<char>, Seq<char>) {
    (views(g.names@), g.vendor_id@, g.brand@)
}

/// CPU groups seen as names, vendor and brand.
pub open spec fn groups_view(gs: Seq<CpuInfo>) -> Seq<(Seq<Seq<char>>, Seq<char>, Seq<char>)> {
    gs.map_values(|g: CpuInfo| group_view(g))
}

/// A logical CPU seen as its name, vendor and brand.
pub open spec fn record_view(r: CpuRecord) -> (Seq<char>, Seq<char>, Seq<char>) {
    (r.name@, r.vendor_id@, r.brand@)
}

/// The first group, from index `from` on, with the given vendor and brand.
pub open spec fn first_group(
    groups: Seq<(Seq<Seq<char>>, Seq<char>, Seq<char>)>,
    vendor: Seq<char>,
    brand: Seq<char>,
    from: int,
) -> Option<int>
    decreases groups.len() - from,
{
    if from < 0 || from >= groups.len() {
        None
    } else if groups[from].1 == vendor && groups[from].2 == brand {
        Some(from)
    } else {
        first_group(groups, vendor, brand, from + 1)
    }
}

/// Adds one CPU to the groups: to the first group with its vendor and
/// brand, or to a new group at the end.
pub open spec fn add_cpu(
    groups: Seq<(Seq<Seq<char>>, Seq<char>, Seq<char>)>,
    cpu: (Seq<char>, Seq<char>, Seq<char>),
) -> Seq<(Seq<Seq<char>>, Seq<char>, Seq<char>)> {
    match first_group(groups, cpu.1, cpu.2, 0) {
        Some(j) => groups.update(j, (groups[j].0.push(cpu.0), cpu.1, cpu.2)),
        None => groups.push((seq![cpu.0], cpu.1, cpu.2)),
    }
}

/// The CPU groups of a list of CPUs, adding them one by one in order.
pub open spec fn group_cpus(cpus: Seq<(Seq<char>, Seq<char>, Seq<char>)>) -> Seq<
    (Seq<Seq<char>>, Seq<char>, Seq<char>),
>
    decreases cpus.len(),
{
    if cpus.len() == 0 {
        Seq::empty()
    } else {
        add_cpu(group_cpus(cpus.drop_last()), cpus.last())
    }
}

/// Groups logical CPUs by vendor and brand, keeping the order in which each
/// group and each name first appears.
pub fn get_cpu_info(cpus: &Vec<CpuRecord>) -> (groups: Vec<CpuInfo>)
    ensures
        groups_view(groups@) == group_cpus(cpus@.map_values(|r: CpuRecord| record_view(r))),
{
    let ghost all = cpus@.map_values(|r: CpuRecord| record_view(r));
    let mut groups: Vec<CpuInfo> = Vec::new();
    let mut i: usize = 0;
    assert(groups_view(groups@) =~= group_cpus(all.take(0)));
    while i < cpus.len()
        invariant
            0 <= i <= cpus.len(),
            all == cpus@.map_values(|r: CpuRecord| record_view(r)),
            groups_view(groups@) == group_cpus(all.take(i as int)),
        decreases cpus.len() - i,
    {
        assert(all.take(i + 1).drop_last() =~= all.take(i as int));
        let cpu = &cpus[i];
        let ghost gv = groups_view(groups@);
        let mut j: usize = 0;
        let mut found = false;
        while j < groups.len()
            invariant_except_break
                !found,
                first_group(gv, cpu.vendor_id@, cpu.brand@, 0) == first_group(
                    gv,
                    cpu.vendor_id@,
                    cpu.brand@,
                    j as int,
                ),
            invariant
                0 <= j <= groups.len(),
                gv == groups_view(groups@),
            ensures
                0 <= j <= groups.len(),
                gv == groups_view(groups@),
                found ==> j < groups.len() && first_group(gv, cpu.vendor_id@, cpu.brand@, 0) == Some(
                    j as int,
                ),
                !found ==> first_group(gv, cpu.vendor_id@, cpu.brand@, 0) is None,
            decreases groups.len() - j,
        {
            if same_text(groups[j].vendor_id.as_str(), cpu.vendor_id.as_str()) && same_text(
                groups[j].brand.as_str(),
                cpu.brand.as_str(),
            ) {
                found = true;
                break;
            }
            j = j + 1;
        }
        assert(all[i as int] == record_view(*cpu));
        proof {
            lemma_first_group(gv, cpu.vendor_id@, cpu.brand@, 0);
        }
        if found {
            let ghost before = groups@;
            let mut g = groups.remove(j);
            g.names.push(cpu.name.clone());
            assert(views(g.names@) =~= gv[j as int].0.push(cpu.name@));
            groups.insert(j, g);
            assert(groups@ =~= before.update(j as int, g));
            assert(gv[j as int].1 == cpu.vendor_id@ && gv[j as int].2 == cpu.brand@);
            assert(group_view(g) == (gv[j as int].0.push(cpu.name@), cpu.vendor_id@, cpu.brand@));
            assert(groups_view(groups@) =~= add_cpu(gv, all[i as int]));
        } else {
            let mut names: Vec<String> = Vec::new();
            names.push(cpu.name.clone());
            assert(views(names@) =~= seq![cpu.name@]);
            let g = CpuInfo { names, vendor_id: cpu.vendor_id.clone(), brand: cpu.brand.clone() };
            groups.push(g);
            assert(groups_view(groups@) =~= add_cpu(gv, all[i as int]));
        }
        i = i + 1;
    }
    assert(all.take(cpus.len() as int) =~= all);
    groups
}

/// No two groups share a vendor and a brand.
pub open spec fn distinct_groups(groups: Seq<(Seq<Seq<char>>, Seq<char>, Seq<char>)>) -> bool {
    forall|a: int, b: int|
        0 <= a < b < groups.len() ==> !(#[trigger] groups[a].1 == #[trigger] groups[b].1
            && groups[a].2 == groups[b].2)
}

proof fn lemma_first_group(
    groups: Seq<(Seq<Seq<char>>, Seq<char>, Seq<char>)>,
    vendor: Seq<char>,
    brand: Seq<char>,
    from: int,
)
    requires
        0 <= from,
    ensures
        match first_group(groups, vendor, brand, from) {
            Some(j) => from <= j < groups.len() && groups[j].1 == vendor && groups[j].2 == brand,
            None => forall|k: int|
                from <= k < groups.len() ==> !(#[trigger] groups[k].1 == vendor && groups[k].2
                    == brand),
        },
    decreases groups.len() - from,
{
    if from < groups.len() && !(groups[from].1 == vendor && groups[from].2 == brand) {
        lemma_first_group(groups, vendor, brand, from + 1);
    }
}

/// The CPU groups never repeat a vendor and brand pair.
pub proof fn law_cpu_groups_distinct(cpus: Seq<(Seq<char>, Seq<char>, Seq<char>)>)
    ensures
        distinct_groups(group_cpus(cpus)),
    decreases cpus.len(),
{
    if cpus.len() > 0 {
        let prev = group_cpus(cpus.drop_last());
        law_cpu_groups_distinct(cpus.drop_last());
        let cpu = cpus.last();
        lemma_first_group(prev, cpu.1, cpu.2, 0);
        let next = group_cpus(cpus);
        assert forall|a: int, b: int| 0 <= a < b < next.len() implies !(#[trigger] next[a].1
            == #[trigger] next[b].1 && next[a].2 == next[b].2) by {
            if b < prev.len() {
                assert(next[a].1 == prev[a].1 && next[a].2 == prev[a].2);
                assert(next[b].1 == prev[b].1 && next[b].2 == prev[b].2);
            }
        }
    }
}

fn convert_blk(info: crate::lsblk::BlkInfo) -> (out: BlkInfo)
    ensures
        out.maj_min == info.maj_min,
        out.disk_seq == info.disk_seq,
        out.name == info.name,
        out.kname == info.kname,
        out.model == info.model,
        out.size == info.size,
        out.removable == info.removable,
        out.uuid == info.uuid,
        out.wwid == info.wwid,
        out.readonly == info.readonly,
        out.path == info.path,
        out.path_by_seq == info.path_by_seq,
        out.subsystem == info.subsystem,
{
    BlkInfo {
        maj_min: info.maj_min,
        disk_seq: info.disk_seq,
        name: info.name,
        kname: info.kname,
        model: info.model,
        size: info.size,
        removable: info.removable,
        uuid: info.uuid,
        wwid: info.wwid,
        readonly: info.readonly,
        path: info.path,
        path_by_seq: info.path_by_seq,
        subsystem: info.subsystem,
    }
}

/// This module's block device seen as the inventory's.
pub open spec fn as_inventory(b: BlkInfo) -> crate::lsblk::BlkInfo {
    crate::lsblk::BlkInfo {
        maj_min: b.maj_min,
        disk_seq: b.disk_seq,
        name: b.name,
        kname: b.kname,
        model: b.model,
        size: b.size,
        removable: b.removable,
        uuid: b.uuid,
        wwid: b.wwid,
        readonly: b.readonly,
        path: b.path,
        path_by_seq: b.path_by_seq,
        subsystem: b.subsystem,
    }
}

/// The block devices for the system description: one for each device whose
/// attributes could all be read, in the order given, each size counted in
/// 512-byte sectors.
pub fn get_blk_info(raws: &Vec<BlkSysfs>) -> (infos: Vec<BlkInfo>)
    ensures
        infos.len() == readable_devices(raws@).len(),
        forall|k: int|
            0 <= k < infos.len() ==> {
                &&& describes_all_but_size(
                    as_inventory(#[trigger] infos@[k]),
                    readable_devices(raws@)[k],
                )
                &&& infos@[k].size == sector_bytes(readable_devices(raws@)[k])
            },
{
    let mut infos: Vec<BlkInfo> = Vec::new();
    let mut i: usize = 0;
    while i < raws.len()
        invariant
            0 <= i <= raws.len(),
            infos.len() == readable_devices(raws@.take(i as int)).len(),
            forall|k: int|
                0 <= k < infos.len() ==> {
                    &&& describes_all_but_size(
                        as_inventory(#[trigger] infos@[k]),
                        readable_devices(raws@.take(i as int))[k],
                    )
                    &&& infos@[k].size == sector_bytes(readable_devices(raws@.take(i as int))[k])
                },
        decreases raws.len() - i,
    {
        assert(raws@.take(i + 1).drop_last() =~= raws@.take(i as int));
        assert(raws@.take(i + 1).last() == raws@[i as int]);
        match create_blk_info_in_sectors(&raws[i]) {
            Ok(info) => {
                let b = convert_blk(info);
                assert(as_inventory(b) == info);
                infos.push(b);
            },
            Err(_) => {},
        }
        i = i + 1;
    }
    assert(raws@.take(raws.len() as int) =~= raws@);
    infos
}

} // verus!
