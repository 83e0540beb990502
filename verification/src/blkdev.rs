//! Block devices: which partitions are EFI system partitions, and how the
//! listing of `lsblk` and of `/sys/block` becomes the list of disks that the
//! user chooses from.
use vstd::prelude::*;
use crate::text::{
    chars_eq, chars_of, copy_range, eq_ignore_ascii_case, eq_ignore_ascii_case_exec,
    has_prefix, is_digit, lines, lines_exec, parse_u64, spec_parse_u64, split_whitespace,
    starts_with_str, string_of, trim, trim_exec, views_as, Pat,
};
use crate::fstab::opt_view;

verus! {

/// GPT partition type GUID of an EFI System Partition.
pub open spec fn esp_guid() -> Seq<char> {
    "c12a7328-f81f-11d2-ba4b-00a0c93ec93b"@
}

pub open spec fn spec_is_esp(parttype: Option<Seq<char>>, fstype: Option<Seq<char>>) -> bool {
    match parttype {
        Some(t) => eq_ignore_ascii_case(t, esp_guid()) || eq_ignore_ascii_case(t, "0xef"@),
        None => fstype == Some("vfat"@),
    }
}

pub open spec fn opt_str_view(o: Option<&str>) -> Option<Seq<char>> {
    match o {
        Some(s) => Some(s@),
        None => None,
    }
}

/// Decides whether a partition is an EFI System Partition.  With a known
/// partition type, only the ESP GUID (in any ASCII case) or the MBR type
/// `0xef` counts; with an unknown type, a `vfat` filesystem counts.
pub fn is_esp(parttype: Option<&str>, fstype: Option<&str>) -> (r: bool)
    ensures
        r == spec_is_esp(opt_str_view(parttype), opt_str_view(fstype)),
{
    match parttype {
        Some(t) => {
            let tv = chars_of(t);
            let guid = chars_of("c12a7328-f81f-11d2-ba4b-00a0c93ec93b");
            let mbr = chars_of("0xef");
            eq_ignore_ascii_case_exec(&tv, &guid) || eq_ignore_ascii_case_exec(&tv, &mbr)
        },
        None => match fstype {
            Some(f) => {
                let fv = chars_of(f);
                let vfat = chars_of("vfat");
                chars_eq(&fv, &vfat)
            },
            None => false,
        },
    }
}

/// A partition or whole disk offered to the user.
#[derive(Clone, Debug)]
pub struct DiskInfo {
    pub name: String,
    pub size: String,
    pub fstype: Option<String>,
    pub label: Option<String>,
    pub uuid: Option<String>,
    pub mountpoint: Option<String>,
    pub is_efi: bool,
    pub contents: Option<String>,
}

pub struct DiskView {
    pub name: Seq<char>,
    pub size: Seq<char>,
    pub fstype: Option<Seq<char>>,
    pub label: Option<Seq<char>>,
    pub uuid: Option<Seq<char>>,
    pub mountpoint: Option<Seq<char>>,
    pub is_efi: bool,
    pub contents: Option<Seq<char>>,
}

impl View for DiskInfo {
    type V = DiskView;

    open spec fn view(&self) -> DiskView {
        DiskView {
            name: self.name@,
            size: self.size@,
            fstype: opt_view(self.fstype),
            label: opt_view(self.label),
            uuid: opt_view(self.uuid),
            mountpoint: opt_view(self.mountpoint),
            is_efi: self.is_efi,
            contents: opt_view(self.contents),
        }
    }
}

pub open spec fn disk_views(s: Seq<DiskInfo>) -> Seq<DiskView> {
    s.map_values(|d: DiskInfo| d@)
}

pub open spec fn name_views(s: Seq<String>) -> Seq<Seq<char>> {
    s.map_values(|n: String| n@)
}

/// One entry of the JSON that `lsblk --json -o NAME,SIZE,FSTYPE,PARTTYPE,LABEL,UUID,MOUNTPOINT` prints.
#[derive(Debug)]
pub struct BlockDevice {
    pub name: String,
    pub size: String,
    pub fstype: Option<String>,
    pub parttype: Option<String>,
    pub label: Option<String>,
    pub uuid: Option<String>,
    pub mountpoint: Option<String>,
    pub children: Option<Vec<BlockDevice>>,
}

/// The disk that an lsblk entry becomes; an ESP is marked as still being scanned.
pub open spec fn disk_of(d: BlockDevice) -> DiskView {
    let efi = spec_is_esp(opt_view(d.parttype), opt_view(d.fstype));
    DiskView {
        name: d.name@,
        size: d.size@,
        fstype: opt_view(d.fstype),
        label: opt_view(d.label),
        uuid: opt_view(d.uuid),
        mountpoint: opt_view(d.mountpoint),
        is_efi: efi,
        contents: if efi {
            Some("Scanning..."@)
        } else {
            None
        },
    }
}

/// A device with partitions contributes its partitions; any other device contributes itself.
pub open spec fn entries_of(d: BlockDevice) -> Seq<BlockDevice> {
    match d.children {
        Some(c) => if c@.len() > 0 {
            c@
        } else {
            seq![d]
        },
        None => seq![d],
    }
}

/// Adds a disk unless a disk of that name was already listed.
pub open spec fn add_unseen(st: (Seq<DiskView>, Seq<Seq<char>>), d: DiskView) -> (
    Seq<DiskView>,
    Seq<Seq<char>>,
) {
    if st.1.contains(d.name) {
        st
    } else {
        (st.0.push(d), st.1.push(d.name))
    }
}

pub open spec fn add_entries(st: (Seq<DiskView>, Seq<Seq<char>>), es: Seq<BlockDevice>) -> (
    Seq<DiskView>,
    Seq<Seq<char>>,
)
    decreases es.len(),
{
    if es.len() == 0 {
        st
    } else {
        add_unseen(add_entries(st, es.drop_last()), disk_of(es.last()))
    }
}

/// The disks listed for the lsblk devices `devs`, and the names seen.
pub open spec fn scan_devices(devs: Seq<BlockDevice>) -> (Seq<DiskView>, Seq<Seq<char>>)
    decreases devs.len(),
{
    if devs.len() == 0 {
        (Seq::empty(), Seq::empty())
    } else {
        add_entries(scan_devices(devs.drop_last()), entries_of(devs.last()))
    }
}

fn clone_opt(o: &Option<String>) -> (r: Option<String>)
    ensures
        r == *o,
{
    match o {
        Some(s) => Some(s.clone()),
        None => None,
    }
}

fn opt_as_str(o: &Option<String>) -> (r: Option<&str>)
    ensures
        opt_str_view(r) == opt_view(*o),
{
    match o {
        Some(s) => Some(s.as_str()),
        None => None,
    }
}

fn seen_contains(seen: &Vec<String>, name: &String) -> (r: bool)
    ensures
        r == name_views(seen@).contains(name@),
{
    let ghost sv = name_views(seen@);
    let mut i: usize = 0;
    while i < seen.len()
        invariant
            i <= seen.len(),
            sv == name_views(seen@),
            forall|j: int| 0 <= j < i ==> sv[j] != name@,
        decreases seen.len() - i,
    {
        if seen[i] == *name {
            assert(sv[i as int] == name@);
            return true;
        }
        i = i + 1;
    }
    false
}

fn disk_from_device(d: &BlockDevice) -> (r: DiskInfo)
    ensures
        r@ == disk_of(*d),
{
    let efi = is_esp(opt_as_str(&d.parttype), opt_as_str(&d.fstype));
    DiskInfo {
        name: d.name.clone(),
        size: d.size.clone(),
        fstype: clone_opt(&d.fstype),
        label: clone_opt(&d.label),
        uuid: clone_opt(&d.uuid),
        mountpoint: clone_opt(&d.mountpoint),
        is_efi: efi,
        contents: if efi {
            Some(String::from_str("Scanning..."))
        } else {
            None
        },
    }
}

fn add_device(disks: &mut Vec<DiskInfo>, seen: &mut Vec<String>, d: &BlockDevice)
    ensures
        (disk_views(final(disks)@), name_views(final(seen)@)) == add_unseen(
            (disk_views(old(disks)@), name_views(old(seen)@)),
            disk_of(*d),
        ),
{
    if !seen_contains(seen, &d.name) {
        let ghost old_disks = disks@;
        let ghost old_seen = seen@;
        let info = disk_from_device(d);
        disks.push(info);
        seen.push(d.name.clone());
        proof {
            assert(disk_views(disks@) =~= disk_views(old_disks).push(disk_of(*d)));
            assert(name_views(seen@) =~= name_views(old_seen).push(d.name@));
        }
    }
}

fn add_entries_exec(disks: &mut Vec<DiskInfo>, seen: &mut Vec<String>, es: &Vec<BlockDevice>)
    ensures
        (disk_views(final(disks)@), name_views(final(seen)@)) == add_entries(
            (disk_views(old(disks)@), name_views(old(seen)@)),
            es@,
        ),
{
    let ghost st0 = (disk_views(disks@), name_views(seen@));
    let mut i: usize = 0;
    proof {
        assert(es@.take(0) =~= Seq::<BlockDevice>::empty());
    }
    while i < es.len()
        invariant
            i <= es.len(),
            (disk_views(disks@), name_views(seen@)) == add_entries(st0, es@.take(i as int)),
        decreases es.len() - i,
    {
        proof {
            assert(es@.take(i + 1).drop_last() =~= es@.take(i as int));
            assert(es@.take(i + 1).last() == es@[i as int]);
        }
        add_device(disks, seen, &es[i]);
        i = i + 1;
    }
    proof {
        assert(es@.take(es.len() as int) =~= es@);
    }
}

/// Lists the disks of the lsblk devices: each partition of a device that has
/// partitions, every other device as a whole, each name once (the first
/// occurrence wins).  Also returns the names listed.
pub fn collect_block_devices(devices: &Vec<BlockDevice>) -> (r: (Vec<DiskInfo>, Vec<String>))
    ensures
        (disk_views(r.0@), name_views(r.1@)) == scan_devices(devices@),
{
    let mut disks: Vec<DiskInfo> = Vec::new();
    let mut seen: Vec<String> = Vec::new();
    let mut i: usize = 0;
    proof {
        assert(devices@.take(0) =~= Seq::<BlockDevice>::empty());
        assert(disk_views(disks@) =~= Seq::<DiskView>::empty());
        assert(name_views(seen@) =~= Seq::<Seq<char>>::empty());
    }
    while i < devices.len()
        invariant
            i <= devices.len(),
            (disk_views(disks@), name_views(seen@)) == scan_devices(devices@.take(i as int)),
        decreases devices.len() - i,
    {
        proof {
            assert(devices@.take(i + 1).drop_last() =~= devices@.take(i as int));
            assert(devices@.take(i + 1).last() == devices@[i as int]);
        }
        let dev = &devices[i];
        let ghost st = (disk_views(disks@), name_views(seen@));
        let has_children = match &dev.children {
            Some(c) => c.len() > 0,
            None => false,
        };
        if has_children {
            match &dev.children {
                Some(c) => {
                    add_entries_exec(&mut disks, &mut seen, c);
                },
                None => {},
            }
        } else {
            proof {
                let one = seq![*dev];
                assert(entries_of(*dev) =~= one);
                assert(one.drop_last() =~= Seq::<BlockDevice>::empty());
                assert(one.last() == *dev);
                assert(add_entries(st, one) == add_unseen(add_entries(st, one.drop_last()), disk_of(*dev)));
            }
            add_device(&mut disks, &mut seen, dev);
        }
        i = i + 1;
    }
    proof {
        assert(devices@.take(devices.len() as int) =~= devices@);
    }
    (disks, seen)
}

/// An entry of `/sys/block`: the device name and its size as shown to the user.
#[derive(Clone, Debug)]
pub struct SysfsEntry {
    pub name: String,
    pub size: String,
}

/// Names of `/sys/block` entries that are never offered: loop, RAM and
/// device-mapper devices.
pub open spec fn is_virtual_device(name: Seq<char>) -> bool {
    has_prefix(name, "loop"@) || has_prefix(name, "ram"@) || has_prefix(name, "zram"@)
        || has_prefix(name, "dm-"@)
}

pub fn is_virtual_device_exec(name: &Vec<char>) -> (r: bool)
    ensures
        r == is_virtual_device(name@),
{
    starts_with_str(name, "loop") || starts_with_str(name, "ram") || starts_with_str(name, "zram")
        || starts_with_str(name, "dm-")
}

/// The disk that a `/sys/block` entry becomes.
pub open spec fn sysfs_disk(e: SysfsEntry) -> DiskView {
    DiskView {
        name: e.name@,
        size: e.size@,
        fstype: None,
        label: None,
        uuid: None,
        mountpoint: None,
        is_efi: false,
        contents: None,
    }
}

pub open spec fn add_sysfs_entries(st: (Seq<DiskView>, Seq<Seq<char>>), es: Seq<SysfsEntry>) -> (
    Seq<DiskView>,
    Seq<Seq<char>>,
)
    decreases es.len(),
{
    if es.len() == 0 {
        st
    } else {
        let prev = add_sysfs_entries(st, es.drop_last());
        if is_virtual_device(es.last().name@) {
            prev
        } else {
            add_unseen(prev, sysfs_disk(es.last()))
        }
    }
}

/// Adds the `/sys/block` devices whose names lsblk did not list: devices
/// lsblk missed, and also a whole disk whose partitions lsblk listed in its place.
pub fn add_sysfs_fallback(seen: &mut Vec<String>, disks: &mut Vec<DiskInfo>, entries: &Vec<SysfsEntry>)
    ensures
        (disk_views(final(disks)@), name_views(final(seen)@)) == add_sysfs_entries(
            (disk_views(old(disks)@), name_views(old(seen)@)),
            entries@,
        ),
{
    let ghost st0 = (disk_views(disks@), name_views(seen@));
    let mut i: usize = 0;
    proof {
        assert(entries@.take(0) =~= Seq::<SysfsEntry>::empty());
    }
    while i < entries.len()
        invariant
            i <= entries.len(),
            (disk_views(disks@), name_views(seen@)) == add_sysfs_entries(
                st0,
                entries@.take(i as int),
            ),
        decreases entries.len() - i,
    {
        proof {
            assert(entries@.take(i + 1).drop_last() =~= entries@.take(i as int));
            assert(entries@.take(i + 1).last() == entries@[i as int]);
        }
        let e = &entries[i];
        let nv = chars_of(e.name.as_str());
        if !is_virtual_device_exec(&nv) && !seen_contains(seen, &e.name) {
            let ghost old_disks = disks@;
            let ghost old_seen = seen@;
            seen.push(e.name.clone());
            disks.push(
                DiskInfo {
                    name: e.name.clone(),
                    size: e.size.clone(),
                    fstype: None,
                    label: None,
                    uuid: None,
                    mountpoint: None,
                    is_efi: false,
                    contents: None,
                },
            );
            proof {
                assert(disk_views(disks@) =~= disk_views(old_disks).push(sysfs_disk(*e)));
                assert(name_views(seen@) =~= name_views(old_seen).push(e.name@));
            }
        }
        i = i + 1;
    }
    proof {
        assert(entries@.take(entries.len() as int) =~= entries@);
    }
}

/// The disks offered to the user: nothing when lsblk could not be run or its
/// output not decoded (`None`), otherwise the lsblk devices followed by the
/// `/sys/block` devices whose names lsblk did not list (loop, RAM and
/// device-mapper devices left out).
pub open spec fn spec_get_disks(lsblk: Option<Seq<BlockDevice>>, sysfs: Seq<SysfsEntry>) -> Seq<
    DiskView,
> {
    match lsblk {
        None => Seq::empty(),
        Some(devs) => add_sysfs_entries(scan_devices(devs), sysfs).0,
    }
}

pub fn get_disks(lsblk: Option<Vec<BlockDevice>>, sysfs: Vec<SysfsEntry>) -> (r: Vec<DiskInfo>)
    ensures
        disk_views(r@) == spec_get_disks(
            match lsblk {
                Some(v) => Some(v@),
                None => None,
            },
            sysfs@,
        ),
{
    match lsblk {
        None => {
            let r: Vec<DiskInfo> = Vec::new();
            assert(disk_views(r@) =~= Seq::<DiskView>::empty());
            r
        },
        Some(devices) => {
            let (mut disks, mut seen) = collect_block_devices(&devices);
            add_sysfs_fallback(&mut seen, &mut disks, &sysfs);
            disks
        },
    }
}

/// The unit in which a size is shown.
#[derive(Clone, Copy, Debug, PartialEq, Eq)]
pub enum SizeScale {
    /// terabytes (10^12 bytes), one decimal
    Tera,
    /// gigabytes (10^9 bytes), one decimal
    Giga,
    /// megabytes (10^6 bytes), no decimal
    Mega,
}

/// The decimal (SI) unit for a size in bytes.
pub fn size_scale(bytes: u64) -> (r: SizeScale)
    ensures
        r == (if bytes >= 1_000_000_000_000 {
            SizeScale::Tera
        } else if bytes >= 1_000_000_000 {
            SizeScale::Giga
        } else {
            SizeScale::Mega
        }),
{
    if bytes >= 1_000_000_000_000 {
        SizeScale::Tera
    } else if bytes >= 1_000_000_000 {
        SizeScale::Giga
    } else {
        SizeScale::Mega
    }
}

/// The first `(uuid, device)` link whose device is `name`.
pub open spec fn find_uuid(name: Seq<char>, links: Seq<(String, String)>) -> Option<Seq<char>>
    decreases links.len(),
{
    if links.len() == 0 {
        None
    } else if links[0].1@ == name {
        Some(links[0].0@)
    } else {
        find_uuid(name, links.drop_first())
    }
}

/// Resolves a partition's UUID from the links of `/dev/disk/by-uuid`, given
/// as `(uuid, name of the device linked to)`.
pub fn uuid_from_links(name: &str, links: Vec<(String, String)>) -> (r: Option<String>)
    ensures
        opt_view(r) == find_uuid(name@, links@),
{
    let nv = chars_of(name);
    let mut i: usize = 0;
    proof {
        assert(links@.skip(0) =~= links@);
    }
    while i < links.len()
        invariant
            i <= links.len(),
            nv@ == name@,
            find_uuid(name@, links@) == find_uuid(name@, links@.skip(i as int)),
        decreases links.len() - i,
    {
        proof {
            assert(links@.skip(i as int)[0] == links@[i as int]);
            assert(links@.skip(i as int).drop_first() =~= links@.skip(i + 1));
        }
        let dv = chars_of(links[i].1.as_str());
        if chars_eq(&dv, &nv) {
            return Some(links[i].0.clone());
        }
        i = i + 1;
    }
    None
}


/// The parent disk of a partition: the name without its partition number,
/// and without the `p` that separates the number from a disk name ending in
/// a digit (`nvme0n1p1`, `mmcblk0p2`); the name itself when it is made of
/// digits only.
pub open spec fn spec_parent(name: Seq<char>) -> Seq<char> {
    let t = trim_digits_end(name);
    if t.len() == 0 {
        name
    } else if t.len() >= 2 && t.last() == 'p' && is_digit(t[t.len() - 2]) {
        t.drop_last()
    } else {
        t
    }
}

pub open spec fn trim_digits_end(s: Seq<char>) -> Seq<char>
    decreases s.len(),
{
    if s.len() > 0 && is_digit(s.last()) {
        trim_digits_end(s.drop_last())
    } else {
        s
    }
}

proof fn lemma_trim_digits_end(s: Seq<char>, k: int)
    requires
        0 <= k <= s.len(),
        forall|i: int| k <= i < s.len() ==> is_digit(#[trigger] s[i]),
    ensures
        trim_digits_end(s) == trim_digits_end(s.subrange(0, k)),
    decreases s.len() - k,
{
    if k == s.len() {
        assert(s.subrange(0, k) =~= s);
    } else {
        let t = s.drop_last();
        assert forall|i: int| k <= i < t.len() implies is_digit(#[trigger] t[i]) by {
            assert(t[i] == s[i]);
        }
        lemma_trim_digits_end(t, k);
        assert(t.subrange(0, k) =~= s.subrange(0, k));
    }
}

/// The parent disk of a partition (`nvme0n1p1` -> `nvme0n1`, `sda1` -> `sda`).
pub fn parent(name: &str) -> (r: String)
    ensures
        r@ == spec_parent(name@),
{
    let v = chars_of(name);
    let mut hi: usize = v.len();
    while hi > 0 && '0' <= v[hi - 1] && v[hi - 1] <= '9'
        invariant
            hi <= v.len(),
            forall|i: int| hi <= i < v.len() ==> is_digit(#[trigger] v@[i]),
        decreases hi,
    {
        hi = hi - 1;
    }
    proof {
        lemma_trim_digits_end(v@, hi as int);
        let t = v@.subrange(0, hi as int);
        if t.len() > 0 {
            assert(t.last() == v@[hi - 1]);
        }
        assert(trim_digits_end(t) == t);
    }
    if hi == 0 {
        string_of(&v)
    } else {
        let end = if hi >= 2 && v[hi - 1] == 'p' && '0' <= v[hi - 2] && v[hi - 2] <= '9' {
            hi - 1
        } else {
            hi
        };
        let t = copy_range(&v, 0, end);
        proof {
            let u = v@.subrange(0, hi as int);
            if end < hi {
                assert(u.last() == v@[hi - 1]);
                assert(u[u.len() - 2] == v@[hi - 2]);
                assert(t@ =~= u.drop_last());
            }
        }
        string_of(&t)
    }
}

/// Whether a `/proc/partitions` name is a partition (it holds a digit).
pub open spec fn spec_is_partition(name: Seq<char>) -> bool {
    exists|i: int| 0 <= i < name.len() && is_digit(name[i])
}

pub fn is_partition(name: &str) -> (r: bool)
    ensures
        r == spec_is_partition(name@),
{
    let v = chars_of(name);
    let mut i: usize = 0;
    while i < v.len()
        invariant
            i <= v.len(),
            v@ == name@,
            forall|j: int| 0 <= j < i ==> !is_digit(v@[j]),
        decreases v.len() - i,
    {
        if '0' <= v[i] && v[i] <= '9' {
            return true;
        }
        i = i + 1;
    }
    false
}

/// The filesystem type and mount point that `/proc/mounts` gives for a device
/// path: from the first line with at least three fields whose first field is
/// the path.
pub open spec fn mount_entry(dev_path: Seq<char>, ls: Seq<Seq<char>>) -> Option<(Seq<char>, Seq<char>)>
    decreases ls.len(),
{
    if ls.len() == 0 {
        None
    } else {
        let f = crate::text::fields(ls[0]);
        if f.len() >= 3 && f[0] == dev_path {
            Some((f[2], f[1]))
        } else {
            mount_entry(dev_path, ls.drop_first())
        }
    }
}

/// Looks up `/dev/<name>` in the text of `/proc/mounts`; returns the
/// filesystem type and the mount point.
pub fn mount_info(name: &str, mounts: &str) -> (r: (Option<String>, Option<String>))
    ensures
        match mount_entry("/dev/"@ + name@, lines(mounts@)) {
            Some((t, m)) => opt_view(r.0) == Some(t) && opt_view(r.1) == Some(m),
            None => r.0 is None && r.1 is None,
        },
{
    let mut dev_path = String::from_str("/dev/");
    dev_path.append(name);
    let dv = chars_of(dev_path.as_str());
    let mv = chars_of(mounts);
    let ls = lines_exec(&mv);
    let ghost g = lines(mounts@);
    let mut i: usize = 0;
    proof {
        assert(g.skip(0) =~= g);
    }
    while i < ls.len()
        invariant
            i <= ls.len(),
            views_as(ls@, g),
            g == lines(mounts@),
            dv@ == "/dev/"@ + name@,
            mount_entry(dv@, g) == mount_entry(dv@, g.skip(i as int)),
        decreases ls.len() - i,
    {
        proof {
            assert(g.skip(i as int)[0] == g[i as int]);
            assert(g.skip(i as int).drop_first() =~= g.skip(i + 1));
        }
        let f = split_whitespace(&ls[i]);
        if f.len() >= 3 && chars_eq(&f[0], &dv) {
            proof {
                let ff = crate::text::fields(g[i as int]);
                assert(ls@[i as int]@ == g[i as int]);
                assert(f@[0]@ == ff[0] && f@[1]@ == ff[1] && f@[2]@ == ff[2]);
            }
            return (Some(string_of(&f[2])), Some(string_of(&f[1])));
        }
        i = i + 1;
    }
    (None, None)
}

// ─── /proc/partitions, for systems without lsblk ─────────────────────────────
/// A device that `/proc/partitions` lists: its name and its size in 1 KiB blocks.
#[derive(Clone, Debug)]
pub struct ProcPartition {
    pub name: String,
    pub blocks: u64,
}

pub open spec fn proc_views(s: Seq<ProcPartition>) -> Seq<(Seq<char>, u64)> {
    s.map_values(|p: ProcPartition| (p.name@, p.blocks))
}

pub open spec fn entry_names(es: Seq<(Seq<char>, u64)>) -> Seq<Seq<char>> {
    es.map_values(|e: (Seq<char>, u64)| e.0)
}

/// The device of a line of `/proc/partitions` (`major minor blocks name`):
/// none for a line of fewer than four fields; a block count that is not a
/// number counts as zero.
pub open spec fn proc_entry(line: Seq<char>) -> Option<(Seq<char>, u64)> {
    let f = crate::text::fields(line);
    if f.len() < 4 {
        None
    } else {
        Some(
            (
                f[3],
                match spec_parse_u64(f[2]) {
                    Some(b) => b,
                    None => 0,
                },
            ),
        )
    }
}

/// The devices of the lines `ls`, in order: loop, RAM and device-mapper
/// devices are left out, and a name is listed once.
pub open spec fn proc_scan(ls: Seq<Seq<char>>) -> Seq<(Seq<char>, u64)>
    decreases ls.len(),
{
    if ls.len() == 0 {
        Seq::empty()
    } else {
        let prev = proc_scan(ls.drop_last());
        match proc_entry(ls.last()) {
            Some(e) => if is_virtual_device(e.0) || entry_names(prev).contains(e.0) {
                prev
            } else {
                prev.push(e)
            },
            None => prev,
        }
    }
}

/// The lines after the two header lines.
pub open spec fn body_lines(ls: Seq<Seq<char>>) -> Seq<Seq<char>> {
    if ls.len() <= 2 {
        Seq::empty()
    } else {
        ls.subrange(2, ls.len() as int)
    }
}

pub open spec fn spec_proc_partitions(content: Seq<char>) -> Seq<(Seq<char>, u64)> {
    proc_scan(body_lines(lines(content)))
}

fn listed(r: &Vec<ProcPartition>, n: &String) -> (b: bool)
    ensures
        b == entry_names(proc_views(r@)).contains(n@),
{
    let ghost names = entry_names(proc_views(r@));
    let mut i: usize = 0;
    while i < r.len()
        invariant
            i <= r.len(),
            names == entry_names(proc_views(r@)),
            names.len() == r.len(),
            forall|j: int| 0 <= j < i ==> names[j] != n@,
        decreases r.len() - i,
    {
        if r[i].name == *n {
            assert(names[i as int] == n@);
            return true;
        }
        i = i + 1;
    }
    false
}

/// The devices that the text of `/proc/partitions` lists, after its header.
pub fn proc_partitions(content: &str) -> (r: Vec<ProcPartition>)
    ensures
        proc_views(r@) == spec_proc_partitions(content@),
{
    let v = chars_of(content);
    let ls = lines_exec(&v);
    let ghost g = lines(content@);
    let mut r: Vec<ProcPartition> = Vec::new();
    if ls.len() <= 2 {
        assert(proc_views(r@) =~= Seq::<(Seq<char>, u64)>::empty());
        return r;
    }
    let ghost body = body_lines(g);
    let mut i: usize = 2;
    assert(body.take(0) =~= Seq::<Seq<char>>::empty());
    assert(proc_views(r@) =~= Seq::<(Seq<char>, u64)>::empty());
    while i < ls.len()
        invariant
            2 <= i <= ls.len(),
            ls.len() > 2,
            views_as(ls@, g),
            g == lines(content@),
            body == body_lines(g),
            proc_views(r@) == proc_scan(body.take(i - 2)),
        decreases ls.len() - i,
    {
        let ghost k: int = i - 2;
        proof {
            assert(body.take(k + 1).drop_last() =~= body.take(k));
            assert(body.take(k + 1).last() == g[i as int]);
        }
        let f = split_whitespace(&ls[i]);
        if f.len() >= 4 {
            let blocks: u64 = match parse_u64(&f[2]) {
                Some(b) => b,
                None => 0,
            };
            let name = string_of(&f[3]);
            if !is_virtual_device_exec(&f[3]) && !listed(&r, &name) {
                let ghost before = r@;
                r.push(ProcPartition { name, blocks });
                proof {
                    assert(proc_views(r@) =~= proc_views(before).push((f@[3]@, blocks)));
                }
            }
        }
        i = i + 1;
    }
    proof {
        assert(body.take(ls.len() - 2) =~= body);
    }
    r
}

/// The first line of a text, trimmed; none for a text without lines.
pub open spec fn spec_first_line(text: Seq<char>) -> Option<Seq<char>> {
    let ls = lines(text);
    if ls.len() == 0 {
        None
    } else {
        Some(trim(ls[0], Pat::Ws))
    }
}

pub fn first_line(text: &str) -> (r: Option<String>)
    ensures
        opt_view(r) == spec_first_line(text@),
{
    let v = chars_of(text);
    let ls = lines_exec(&v);
    if ls.len() == 0 {
        None
    } else {
        let t = trim_exec(&ls[0], Pat::Ws);
        Some(string_of(&t))
    }
}

/// The label shown for a partition found through `/proc/partitions`: the
/// first line of its disk's `uevent` file (`None`: unreadable), else its name.
pub open spec fn probe_label(name: Seq<char>, uevent: Option<Seq<char>>) -> Seq<char> {
    match uevent {
        Some(t) => match spec_first_line(t) {
            Some(l) => l,
            None => name,
        },
        None => name,
    }
}

/// What is known of a partition without lsblk: its filesystem type and mount
/// point from the text of `/proc/mounts`, a label from the text of
/// `/sys/block/<parent>/uevent` (`None` when unreadable), its UUID from the
/// links of `/dev/disk/by-uuid`, and whether it is an ESP (no partition type
/// is known here, so a `vfat` filesystem counts).
pub fn probe_partition(name: &str, mounts: &str, uevent: Option<&str>, links: Vec<(String, String)>) -> (r: (
    Option<String>,
    Option<String>,
    Option<String>,
    Option<String>,
    bool,
))
    ensures
        match mount_entry("/dev/"@ + name@, lines(mounts@)) {
            Some((t, m)) => opt_view(r.0) == Some(t) && opt_view(r.1) == Some(m),
            None => r.0 is None && r.1 is None,
        },
        opt_view(r.2) == Some(probe_label(name@, opt_str_view(uevent))),
        opt_view(r.3) == find_uuid(name@, links@),
        r.4 == spec_is_esp(None, opt_view(r.0)),
{
    let (fstype, mountpoint) = mount_info(name, mounts);
    let is_efi = is_esp(None, opt_as_str(&fstype));
    let label = match uevent {
        Some(t) => match first_line(t) {
            Some(l) => l,
            None => String::from_str(name),
        },
        None => String::from_str(name),
    };
    let uuid = uuid_from_links(name, links);
    (fstype, mountpoint, Some(label), uuid, is_efi)
}

/// The disk that a device of `/proc/partitions` becomes: a partition (a name
/// with a digit) is probed through `/proc/mounts`, its disk's `uevent` file
/// and `/dev/disk/by-uuid`; a whole disk is shown with its name and size only.
pub open spec fn spec_proc_disk(
    name: Seq<char>,
    size: Seq<char>,
    mounts: Seq<char>,
    uevent: Option<Seq<char>>,
    links: Seq<(String, String)>,
) -> DiskView {
    if spec_is_partition(name) {
        let me = mount_entry("/dev/"@ + name, lines(mounts));
        let fstype = match me {
            Some((t, _)) => Some(t),
            None => None,
        };
        DiskView {
            name,
            size,
            fstype,
            label: Some(probe_label(name, uevent)),
            uuid: find_uuid(name, links),
            mountpoint: match me {
                Some((_, m)) => Some(m),
                None => None,
            },
            is_efi: spec_is_esp(None, fstype),
            contents: None,
        }
    } else {
        DiskView {
            name,
            size,
            fstype: None,
            label: None,
            uuid: None,
            mountpoint: None,
            is_efi: false,
            contents: None,
        }
    }
}

/// The disk for a device of `/proc/partitions`, given its size as shown and
/// the texts of `/proc/mounts` and of its disk's `uevent` file (`None`:
/// unreadable) and the links of `/dev/disk/by-uuid`.
pub fn proc_disk(name: String, size: String, mounts: &str, uevent: Option<&str>, links: Vec<(String, String)>) -> (r: DiskInfo)
    ensures
        r@ == spec_proc_disk(name@, size@, mounts@, opt_str_view(uevent), links@),
{
    if is_partition(name.as_str()) {
        let (fstype, mountpoint, label, uuid, is_efi) = probe_partition(name.as_str(), mounts, uevent, links);
        DiskInfo { name, size, fstype, label, uuid, mountpoint, is_efi, contents: None }
    } else {
        DiskInfo {
            name,
            size,
            fstype: None,
            label: None,
            uuid: None,
            mountpoint: None,
            is_efi: false,
            contents: None,
        }
    }
}

/// The number in the text of a `/sys/block/<name>/size` file (a count of
/// 512-byte sectors), surrounding whitespace ignored.
pub fn sysfs_sectors(text: &str) -> (r: Option<u64>)
    ensures
        r == spec_parse_u64(trim(text@, Pat::Ws)),
{
    let v = chars_of(text);
    let t = trim_exec(&v, Pat::Ws);
    parse_u64(&t)
}

} // verus!
