//! System-telemetry aggregation: the arithmetic and selection logic behind a
//! telemetry sample.
//!
//! The probe readings themselves (counter refreshes, disk enumeration,
//! sensor lists) come from the host's metrics interface; this module turns
//! the raw readings into the reported figures. Ratios are carried in
//! hundredths of a percent and temperatures in hundredths of a degree, so a
//! sample holds exact integers throughout.
use vstd::prelude::*;

verus! {

/// A telemetry snapshot: CPU and memory/disk usage ratios in hundredths of a
/// percent, the raw byte counts behind them, and the CPU temperature in
/// hundredths of a degree where a sensor was found.
pub struct SystemInfo {
    pub cpu_usage_centi: u32,
    pub memory_usage_centi: u64,
    pub memory_total: u64,
    pub memory_used: u64,
    pub disk_usage_centi: u64,
    pub disk_total: u64,
    pub disk_used: u64,
    pub cpu_temperature_centi: Option<i64>,
}

/// The capacity of one enumerated disk: total and still-available bytes.
#[derive(Clone, Copy)]
pub struct DiskSpace {
    pub total: u64,
    pub available: u64,
}

/// `used / total` in hundredths of a percent, rounded down: 0 when the total
/// is 0 (a failed probe must read as empty, not crash), and capped at 100%
/// should a probe ever report more used than present.
pub open spec fn usage_centi_of(used: u64, total: u64) -> int {
    if total == 0 {
        0
    } else if used >= total {
        10000
    } else {
        used * 10000 / (total as int)
    }
}

/// The used bytes of a disk: total minus available, and 0 should a probe
/// report more available than present.
pub open spec fn disk_used_of(d: DiskSpace) -> u64 {
    if d.available <= d.total {
        (d.total - d.available) as u64
    } else {
        0
    }
}

/// Computes a usage ratio in hundredths of a percent.
pub fn usage_centi(used: u64, total: u64) -> (r: u64)
    ensures
        r == usage_centi_of(used, total),
        r <= 10000,
{
    if total == 0 {
        0
    } else if used >= total {
        10000
    } else {
        let ratio: u128 = (used as u128) * 10000 / (total as u128);
        proof {
            assert((used as int) * 10000 / (total as int) < 10000) by (nonlinear_arith)
                requires
                    0 < (total as int),
                    (used as int) < (total as int),
            ;
        }
        ratio as u64
    }
}

/// Summarises the first enumerated disk as (total, used, usage in hundredths
/// of a percent); all zero when no disk was enumerated at all.
pub fn disk_summary(disks: &Vec<DiskSpace>) -> (r: (u64, u64, u64))
    ensures
        disks@.len() == 0 ==> r == (0u64, 0u64, 0u64),
        disks@.len() > 0 ==> r.0 == disks@[0].total && r.1 == disk_used_of(disks@[0]) && r.2
            == usage_centi_of(disk_used_of(disks@[0]), disks@[0].total),
{
    if disks.len() == 0 {
        (0, 0, 0)
    } else {
        let d = disks[0];
        let used = if d.available <= d.total {
            d.total - d.available
        } else {
            0
        };
        let usage = usage_centi(used, d.total);
        (d.total, used, usage)
    }
}

/// The byte `b` with an ASCII capital letter folded to lower case.
pub open spec fn ascii_lower_byte(b: u8) -> u8 {
    if 65 <= b <= 90 {
        (b + 32) as u8
    } else {
        b
    }
}

/// `s` with every ASCII capital letter folded to lower case.
pub open spec fn lower_bytes(s: Seq<u8>) -> Seq<u8> {
    s.map_values(|b: u8| ascii_lower_byte(b))
}

/// `sub` occurs verbatim, contiguously, somewhere in `hay`.
pub open spec fn is_byte_sub(hay: Seq<u8>, sub: Seq<u8>) -> bool {
    exists|k: int|
        0 <= k && k + sub.len() <= hay.len() && #[trigger] hay.subrange(k, k + sub.len()) == sub
}

/// The sensor-label heuristic: after ASCII case folding the label mentions
/// "cpu", "core" or "package". A heuristic, not a guaranteed-correct sensor
/// selection.
pub open spec fn cpu_label(l: Seq<u8>) -> bool {
    ||| is_byte_sub(lower_bytes(l), seq![99u8, 112u8, 117u8])
    ||| is_byte_sub(lower_bytes(l), seq![99u8, 111u8, 114u8, 101u8])
    ||| is_byte_sub(lower_bytes(l), seq![112u8, 97u8, 99u8, 107u8, 97u8, 103u8, 101u8])
}

/// Folds ASCII capital letters to lower case.
pub fn ascii_lower(v: &Vec<u8>) -> (r: Vec<u8>)
    ensures
        r@ == lower_bytes(v@),
{
    let mut out: Vec<u8> = Vec::new();
    let n = v.len();
    let mut i: usize = 0;
    while i < n
        invariant
            n == v@.len(),
            i <= n,
            out@.len() == i,
            forall|j: int| 0 <= j < i ==> out@[j] == ascii_lower_byte(v@[j]),
        decreases n - i,
    {
        let b = v[i];
        if b >= 65 && b <= 90 {
            out.push(b + 32);
        } else {
            out.push(b);
        }
        i += 1;
    }
    proof {
        assert(out@ =~= lower_bytes(v@));
    }
    out
}

/// Substring search over bytes.
#[verifier::loop_isolation(false)]
pub fn contains_bytes(hay: &Vec<u8>, needle: &Vec<u8>) -> (r: bool)
    ensures
        r == is_byte_sub(hay@, needle@),
{
    let hl = hay.len();
    let nl = needle.len();
    if nl > hl {
        return false;
    }
    if nl == 0 {
        proof {
            let ghost z: int = 0;
            assert(hay@.subrange(z, z + needle@.len()) =~= needle@);
        }
        return true;
    }
    let mut k: usize = 0;
    while k <= hl - nl
        invariant
            k <= hl - nl + 1,
            forall|k2: int| 0 <= k2 < k ==> #[trigger] hay@.subrange(k2, k2 + nl) != needle@,
        decreases hl - nl + 1 - k,
    {
        let mut m: usize = 0;
        let mut matched = true;
        while m < nl
            invariant
                m <= nl,
                k + nl <= hl,
                matched ==> forall|t: int| 0 <= t < m ==> hay@[k + t] == needle@[t],
                !matched ==> hay@.subrange(k as int, k + nl) != needle@,
            decreases nl - m,
        {
            if hay[k + m] != needle[m] {
                proof {
                    assert(hay@.subrange(k as int, k + nl)[m as int] == hay@[k + m]);
                }
                matched = false;
                m = nl;
            } else {
                m += 1;
            }
        }
        if matched {
            proof {
                assert(hay@.subrange(k as int, k + nl) =~= needle@);
            }
            return true;
        }
        k += 1;
    }
    proof {
        assert forall|k2: int|
            0 <= k2 && k2 + needle@.len() <= hay@.len() implies #[trigger] hay@.subrange(
            k2,
            k2 + needle@.len(),
        ) != needle@ by {
            assert(k2 < hl - nl + 1);
        }
    }
    false
}

/// Whether a sensor label names the CPU after case folding.
pub fn label_matches_cpu(label: &Vec<u8>) -> (r: bool)
    ensures
        r == cpu_label(label@),
{
    let lowered = ascii_lower(label);
    let mut cpu: Vec<u8> = Vec::new();
    cpu.push(99);
    cpu.push(112);
    cpu.push(117);
    let mut core: Vec<u8> = Vec::new();
    core.push(99);
    core.push(111);
    core.push(114);
    core.push(101);
    let mut package: Vec<u8> = Vec::new();
    package.push(112);
    package.push(97);
    package.push(99);
    package.push(107);
    package.push(97);
    package.push(103);
    package.push(101);
    proof {
        assert(cpu@ =~= seq![99u8, 112u8, 117u8]);
        assert(core@ =~= seq![99u8, 111u8, 114u8, 101u8]);
        assert(package@ =~= seq![112u8, 97u8, 99u8, 107u8, 97u8, 103u8, 101u8]);
    }
    contains_bytes(&lowered, &cpu) || contains_bytes(&lowered, &core) || contains_bytes(
        &lowered,
        &package,
    )
}

/// Picks the first sensor whose label names the CPU; `None`, not a failure,
/// when no label matches.
pub fn select_cpu_sensor(labels: &Vec<Vec<u8>>) -> (r: Option<usize>)
    ensures
        r matches Some(i) ==> i < labels@.len() && cpu_label(labels@[i as int]@) && (forall|j: int|
            0 <= j < i ==> !cpu_label(labels@[j]@)),
        r is None ==> forall|j: int| 0 <= j < labels@.len() ==> !cpu_label(labels@[j]@),
{
    let n = labels.len();
    let mut i: usize = 0;
    while i < n
        invariant
            n == labels@.len(),
            i <= n,
            forall|j: int| 0 <= j < i ==> !cpu_label(labels@[j]@),
        decreases n - i,
    {
        if label_matches_cpu(&labels[i]) {
            return Some(i);
        }
        i += 1;
    }
    None
}

/// Assembles a snapshot from the raw readings: the CPU figure and memory
/// counters read from the refreshed probe, the freshly enumerated disk list,
/// and the temperature of the selected sensor, if any.
pub fn build_system_info(
    cpu_usage_centi: u32,
    memory_total: u64,
    memory_used: u64,
    disks: &Vec<DiskSpace>,
    cpu_temperature_centi: Option<i64>,
) -> (r: SystemInfo)
    ensures
        r.cpu_usage_centi == cpu_usage_centi,
        r.memory_usage_centi == usage_centi_of(memory_used, memory_total),
        r.memory_total == memory_total,
        r.memory_used == memory_used,
        disks@.len() == 0 ==> r.disk_total == 0 && r.disk_used == 0 && r.disk_usage_centi == 0,
        disks@.len() > 0 ==> r.disk_total == disks@[0].total && r.disk_used == disk_used_of(
            disks@[0],
        ) && r.disk_usage_centi == usage_centi_of(disk_used_of(disks@[0]), disks@[0].total),
        r.cpu_temperature_centi == cpu_temperature_centi,
{
    let memory_usage_centi = usage_centi(memory_used, memory_total);
    let (disk_total, disk_used, disk_usage_centi) = disk_summary(disks);
    SystemInfo {
        cpu_usage_centi,
        memory_usage_centi,
        memory_total,
        memory_used,
        disk_usage_centi,
        disk_total,
        disk_used,
        cpu_temperature_centi,
    }
}

} // verus!
