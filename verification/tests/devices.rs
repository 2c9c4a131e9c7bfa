use mxlite::lsblk::{
    create_blk_info_in_sectors, create_root_blk_info, dev_path, diskseq_path, get_blk_info,
    BlkAttr, BlkInfoError, BlkReadFailure, BlkSysfs, SysfsRead,
};
use mxlite::system_info::{get_blk_info as inventory_blk_info, get_cpu_info, CpuRecord};

fn content(s: &str) -> SysfsRead {
    SysfsRead::Content(s.to_string())
}

fn sda() -> BlkSysfs {
    BlkSysfs {
        kname: "sda".to_string(),
        dev: content("8:0\n"),
        diskseq: content("9\n"),
        uevent: content("MAJOR=8\nMINOR=0\nDEVNAME=sda\nDEVTYPE=disk\n"),
        model: content("QEMU HARDDISK   \n"),
        size: content("2048\n"),
        removable: content("0\n"),
        uuid: SysfsRead::NotFound,
        wwid: content("t10.ATA QEMU\n"),
        ro: content("1\n"),
        dev_node_exists: true,
        diskseq_node_exists: true,
        subsystem_link: Some("/sys/bus/scsi".to_string()),
    }
}

#[test]
fn root_block_device_is_assembled() {
    let info = create_root_blk_info(&sda()).unwrap();
    assert_eq!(info.maj_min, "8:0");
    assert_eq!(info.disk_seq, 9);
    assert_eq!(info.name, "sda");
    assert_eq!(info.kname, "sda");
    assert_eq!(info.model.as_deref(), Some("QEMU HARDDISK"));
    assert_eq!(info.size, 2048 * 512);
    assert!(!info.removable);
    assert_eq!(info.uuid, None);
    assert_eq!(info.wwid.as_deref(), Some("t10.ATA QEMU"));
    assert!(info.readonly);
    assert_eq!(info.path.as_deref(), Some("/dev/sda"));
    assert_eq!(info.path_by_seq.as_deref(), Some("/dev/disk/by-diskseq/9"));
    assert_eq!(info.subsystem.as_deref(), Some("scsi"));
}

#[test]
fn size_counts_512_byte_sectors() {
    let mut raw = sda();
    raw.subsystem_link = Some("/sys/class/nvme".to_string());
    raw.dev_node_exists = false;
    raw.diskseq_node_exists = false;
    let info = create_root_blk_info(&raw).unwrap();
    assert_eq!(info.size, 2048 * 512);
    assert_eq!(info.subsystem.as_deref(), Some("nvme"));
    assert_eq!(info.path, None);
    assert_eq!(info.path_by_seq, None);
}

#[test]
fn unknown_subsystem_and_missing_name() {
    let mut raw = sda();
    raw.subsystem_link = Some("/sys/bus/virtio".to_string());
    raw.uevent = content("MAJOR=8\n");
    let info = create_root_blk_info(&raw).unwrap();
    assert_eq!(info.subsystem.as_deref(), Some("unknown"));
    assert_eq!(info.name, "");
    raw.subsystem_link = None;
    assert_eq!(create_root_blk_info(&raw).unwrap().subsystem, None);
}

#[test]
fn first_unreadable_attribute_is_reported() {
    let mut raw = sda();
    raw.diskseq = content("nine");
    raw.removable = SysfsRead::Failed;
    assert_eq!(
        create_root_blk_info(&raw).unwrap_err(),
        BlkInfoError { attr: BlkAttr::DiskSeq, failure: BlkReadFailure::NotANumber }
    );
    let mut raw = sda();
    raw.dev = SysfsRead::NotFound;
    assert_eq!(
        create_root_blk_info(&raw).unwrap_err(),
        BlkInfoError { attr: BlkAttr::Dev, failure: BlkReadFailure::Unreadable }
    );
    let mut raw = sda();
    raw.model = SysfsRead::Failed;
    assert_eq!(
        create_root_blk_info(&raw).unwrap_err(),
        BlkInfoError { attr: BlkAttr::Model, failure: BlkReadFailure::Unreadable }
    );
    let mut raw = sda();
    raw.ro = content("");
    assert_eq!(
        create_root_blk_info(&raw).unwrap_err(),
        BlkInfoError { attr: BlkAttr::ReadOnly, failure: BlkReadFailure::NotANumber }
    );
}

#[test]
fn sector_sized_device_ignores_block_size() {
    let info = create_blk_info_in_sectors(&sda()).unwrap();
    assert_eq!(info.size, 2048 * 512);
    let mut raw = sda();
    raw.size = content("36028797018963968");
    assert_eq!(create_blk_info_in_sectors(&raw).unwrap().size, 0);
}

#[test]
fn inventory_skips_unreadable_devices() {
    let mut broken = sda();
    broken.kname = "sdb".to_string();
    broken.uevent = SysfsRead::Failed;
    let mut nvme = sda();
    nvme.kname = "nvme0n1".to_string();
    let infos = get_blk_info(&vec![sda(), broken, nvme]);
    assert_eq!(infos.len(), 2);
    assert_eq!(infos[0].kname, "sda");
    assert_eq!(infos[1].kname, "nvme0n1");
    assert_eq!(infos[1].path.as_deref(), Some("/dev/nvme0n1"));
    assert!(get_blk_info(&vec![]).is_empty());
}

#[test]
fn system_inventory_counts_sectors() {
    let infos = inventory_blk_info(&vec![sda()]);
    assert_eq!(infos.len(), 1);
    assert_eq!(infos[0].size, 2048 * 512);
    assert_eq!(infos[0].name, "sda");
}

#[test]
fn device_paths() {
    assert_eq!(dev_path("sda"), "/dev/sda");
    assert_eq!(diskseq_path(&content(" 12 \n")).as_deref(), Some("/dev/disk/by-diskseq/12"));
    assert_eq!(diskseq_path(&content("x")), None);
    assert_eq!(diskseq_path(&SysfsRead::NotFound), None);
}

fn cpu(name: &str, vendor: &str, brand: &str) -> CpuRecord {
    CpuRecord { name: name.to_string(), vendor_id: vendor.to_string(), brand: brand.to_string() }
}

#[test]
fn cpus_are_grouped_by_vendor_and_brand() {
    let groups = get_cpu_info(&vec![
        cpu("cpu0", "GenuineIntel", "Xeon"),
        cpu("cpu1", "AuthenticAMD", "EPYC"),
        cpu("cpu2", "GenuineIntel", "Xeon"),
        cpu("cpu3", "GenuineIntel", "Core"),
    ]);
    assert_eq!(groups.len(), 3);
    assert_eq!(groups[0].names, vec!["cpu0", "cpu2"]);
    assert_eq!(groups[0].vendor_id, "GenuineIntel");
    assert_eq!(groups[1].names, vec!["cpu1"]);
    assert_eq!(groups[1].brand, "EPYC");
    assert_eq!(groups[2].names, vec!["cpu3"]);
    assert!(get_cpu_info(&vec![]).is_empty());
}
