use vstd::prelude::*;

verus! {

/// One mounted volume, as the host reports it.
pub struct DiskInfo {
    pub mount_point: String,
    pub total_space: u64,
    pub available_space: u64,
}

/// Mount point of the primary volume on POSIX-like hosts.
pub open spec fn posix_root() -> Seq<char> {
    "/"@
}

/// Mount point of the primary volume on Windows-like hosts.
pub open spec fn windows_root() -> Seq<char> {
    "C:\\"@
}

pub open spec fn has_mount(disks: Seq<DiskInfo>, mount: Seq<char>) -> bool {
    exists|i: int| 0 <= i < disks.len() && (#[trigger] disks[i]).mount_point@ == mount
}

/// `i` is the first position in `disks` whose mount point is `mount`.
pub open spec fn is_first_mount(disks: Seq<DiskInfo>, mount: Seq<char>, i: int) -> bool {
    &&& 0 <= i < disks.len()
    &&& disks[i].mount_point@ == mount
    &&& forall|j: int| 0 <= j < i ==> (#[trigger] disks[j]).mount_point@ != mount
}

pub open spec fn first_mount(disks: Seq<DiskInfo>, mount: Seq<char>) -> int {
    choose|i: int| is_first_mount(disks, mount, i)
}

/// Position of the primary volume: the first root mount, else the first
/// Windows system drive, else none.
pub open spec fn primary_disk_spec(disks: Seq<DiskInfo>) -> Option<int> {
    if has_mount(disks, posix_root()) {
        Some(first_mount(disks, posix_root()))
    } else if has_mount(disks, windows_root()) {
        Some(first_mount(disks, windows_root()))
    } else {
        None
    }
}

/// The usage of one volume is defined when it has a size and reports no more
/// free space than that size.
pub open spec fn usage_defined(d: DiskInfo) -> bool {
    0 < d.total_space && d.available_space <= d.total_space
}

pub open spec fn usage_percent(d: DiskInfo) -> int {
    (d.total_space - d.available_space) * 100 / d.total_space as int
}

pub open spec fn disk_usage_defined(disks: Seq<DiskInfo>) -> bool {
    match primary_disk_spec(disks) {
        Some(i) => usage_defined(disks[i]),
        None => true,
    }
}

pub open spec fn disk_percent_spec(disks: Seq<DiskInfo>) -> int {
    match primary_disk_spec(disks) {
        Some(i) => usage_percent(disks[i]),
        None => 0,
    }
}

proof fn lemma_first_mount_unique(disks: Seq<DiskInfo>, mount: Seq<char>, i: int)
    requires
        is_first_mount(disks, mount, i),
    ensures
        has_mount(disks, mount),
        first_mount(disks, mount) == i,
{
    assert(disks[i].mount_point@ == mount);
    let k = first_mount(disks, mount);
    assert(is_first_mount(disks, mount, k));
    if k < i {
        assert(disks[k].mount_point@ != mount);
    } else if i < k {
        assert(disks[i].mount_point@ != mount);
    }
}

fn find_mount(disks: &Vec<DiskInfo>, mount: &String) -> (r: Option<usize>)
    ensures
        match r {
            Some(i) => is_first_mount(disks@, mount@, i as int),
            None => !has_mount(disks@, mount@),
        },
{
    let mut i: usize = 0;
    while i < disks.len()
        invariant
            i <= disks@.len(),
            forall|j: int| 0 <= j < i ==> (#[trigger] disks@[j]).mount_point@ != mount@,
        decreases disks.len() - i,
    {
        if disks[i].mount_point == *mount {
            return Some(i);
        }
        i = i + 1;
    }
    None
}

/// Finds the primary volume in `disks`: the first mounted at the root, or,
/// where there is none, the first mounted as the Windows system drive.
pub fn primary_disk(disks: &Vec<DiskInfo>) -> (r: Option<usize>)
    ensures
        match r {
            Some(i) => i < disks@.len() && primary_disk_spec(disks@) == Some(i as int),
            None => primary_disk_spec(disks@) is None,
        },
{
    let root = String::from_str("/");
    match find_mount(disks, &root) {
        Some(i) => {
            proof {
                lemma_first_mount_unique(disks@, posix_root(), i as int);
            }
            Some(i)
        },
        None => {
            let drive = String::from_str("C:\\");
            match find_mount(disks, &drive) {
                Some(i) => {
                    proof {
                        lemma_first_mount_unique(disks@, windows_root(), i as int);
                    }
                    Some(i)
                },
                None => None,
            }
        },
    }
}

/// Percentage of the primary volume in use, truncated; 0 when the host
/// reports no primary volume. No other volume is taken in its place.
pub fn disk_percent(disks: &Vec<DiskInfo>) -> (r: u64)
    requires
        disk_usage_defined(disks@),
    ensures
        r == disk_percent_spec(disks@),
        r <= 100,
        !has_mount(disks@, posix_root()) && !has_mount(disks@, windows_root()) ==> r == 0,
{
    match primary_disk(disks) {
        Some(i) => {
            let d = &disks[i];
            let total = d.total_space as u128;
            let used = (d.total_space - d.available_space) as u128;
            assert((used as int) * 100 <= u64::MAX * 100 && (used as int) * 100 / (total as int)
                <= 100) by (nonlinear_arith)
                requires
                    used <= total,
                    0 < total <= u64::MAX,
            ;
            let pct = used * 100 / total;
            pct as u64
        },
        None => 0,
    }
}

/// Sum of the bytes received over every interface.
pub open spec fn total_received(received: Seq<u64>) -> int
    decreases received.len(),
{
    if received.len() == 0 {
        0
    } else {
        total_received(received.drop_last()) + received.last()
    }
}

pub open spec fn net_down_kb_spec(received: Seq<u64>) -> int {
    total_received(received) / 1024
}

proof fn lemma_prefix_total_le(received: Seq<u64>, i: int)
    requires
        0 <= i <= received.len(),
    ensures
        total_received(received.subrange(0, i)) <= total_received(received),
    decreases received.len(),
{
    if i < received.len() {
        lemma_prefix_total_le(received.drop_last(), i);
        assert(received.drop_last().subrange(0, i) =~= received.subrange(0, i));
    } else {
        assert(received.subrange(0, i) =~= received);
    }
}

/// Kilobytes received since the host booted, over every interface: the
/// cumulative total, not the amount since the previous sample.
pub fn net_down_kb(received: &Vec<u64>) -> (r: u64)
    requires
        total_received(received@) <= u64::MAX,
    ensures
        r == net_down_kb_spec(received@),
{
    let mut total: u64 = 0;
    let mut i: usize = 0;
    while i < received.len()
        invariant
            i <= received@.len(),
            total == total_received(received@.subrange(0, i as int)),
            total_received(received@) <= u64::MAX,
        decreases received.len() - i,
    {
        proof {
            assert(received@.subrange(0, i + 1).drop_last() =~= received@.subrange(0, i as int));
            lemma_prefix_total_le(received@, i + 1);
        }
        total = total + received[i];
        i = i + 1;
    }
    assert(received@.subrange(0, i as int) =~= received@);
    total / 1024
}

/// The received-bytes total over interfaces whose counters only grew.
pub proof fn lemma_total_received_monotonic(before: Seq<u64>, after: Seq<u64>)
    requires
        before.len() == after.len(),
        forall|i: int| 0 <= i < before.len() ==> before[i] <= after[i],
    ensures
        total_received(before) <= total_received(after),
    decreases before.len(),
{
    if before.len() > 0 {
        lemma_total_received_monotonic(before.drop_last(), after.drop_last());
    }
}

/// Between two samples of the same interfaces whose counters did not go back
/// (no reboot of the host in between), the reported download total does not
/// decrease.
pub proof fn lemma_net_down_kb_non_decreasing(before: Seq<u64>, after: Seq<u64>)
    requires
        before.len() == after.len(),
        forall|i: int| 0 <= i < before.len() ==> before[i] <= after[i],
    ensures
        net_down_kb_spec(before) <= net_down_kb_spec(after),
{
    lemma_total_received_monotonic(before, after);
    vstd::arithmetic::div_mod::lemma_div_is_ordered(
        total_received(before),
        total_received(after),
        1024,
    );
}

} // verus!
