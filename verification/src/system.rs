use vstd::prelude::*;
use crate::decimal::{
    integer_text_value, is_integer_text, lemma_signed_decimal_injective,
    lemma_signed_decimal_reads_back, push_signed_decimal, signed_decimal,
};

verus! {

/// A borrowed value on its way to the status report.
pub struct Ser<'a, T>(pub &'a T);

impl<'a, T> Ser<'a, T> {
    /// Wraps a borrowed value.
    pub fn new(value: &'a T) -> (s: Self)
        ensures
            s.0 == value,
    {
        Ser(value)
    }
}

/// The kind of storage a disk is.
#[derive(Debug, Clone, Copy, PartialEq, Eq, Structural)]
pub enum DiskKind {
    Hdd,
    Ssd,
    /// Not known; the number that the operating system reported.
    Unknown(isize),
}

/// The label of a disk kind in the report: `HDD`, `SSD`, or `Unknown(n)`.
pub open spec fn disk_kind_label(kind: DiskKind) -> Seq<char> {
    match kind {
        DiskKind::Hdd => "HDD"@,
        DiskKind::Ssd => "SSD"@,
        DiskKind::Unknown(n) => "Unknown("@ + signed_decimal(n as int) + ")"@,
    }
}

impl DiskKind {
    /// The label of this disk kind in the report.
    pub fn label(&self) -> (text: String)
        ensures
            text@ == disk_kind_label(*self),
            *self is Hdd ==> text@ == "HDD"@,
            *self is Ssd ==> text@ == "SSD"@,
            *self matches DiskKind::Unknown(n) ==> (text@.len() >= 10 && text@.subrange(0, 8)
                == "Unknown("@ && text@.last() == ')' && is_integer_text(
                text@.subrange(8, text@.len() - 1),
            ) && integer_text_value(text@.subrange(8, text@.len() - 1)) == n),
    {
        proof {
            if let DiskKind::Unknown(n) = *self {
                law_unknown_disk_label_reads_back(n);
            }
            reveal_strlit("HDD");
            reveal_strlit("SSD");
            reveal_strlit("Unknown(");
            reveal_strlit(")");
        }
        match self {
            DiskKind::Hdd => String::from_str("HDD"),
            DiskKind::Ssd => String::from_str("SSD"),
            DiskKind::Unknown(n) => {
                let mut text = String::from_str("Unknown(");
                push_signed_decimal(&mut text, *n);
                text.append(")");
                text
            },
        }
    }
}

/// The label of an unknown disk kind is `Unknown(`, the text of an
/// integer, and `)`; that integer is exactly the number the system
/// reported, sign included.
pub proof fn law_unknown_disk_label_reads_back(n: isize)
    ensures
        disk_kind_label(DiskKind::Unknown(n)).len() >= 10,
        disk_kind_label(DiskKind::Unknown(n)).subrange(0, 8) == "Unknown("@,
        disk_kind_label(DiskKind::Unknown(n)).last() == ')',
        is_integer_text(
            disk_kind_label(DiskKind::Unknown(n)).subrange(
                8,
                disk_kind_label(DiskKind::Unknown(n)).len() - 1,
            ),
        ),
        integer_text_value(
            disk_kind_label(DiskKind::Unknown(n)).subrange(
                8,
                disk_kind_label(DiskKind::Unknown(n)).len() - 1,
            ),
        ) == n,
{
    reveal_strlit("Unknown(");
    reveal_strlit(")");
    let l = disk_kind_label(DiskKind::Unknown(n));
    let t = signed_decimal(n as int);
    lemma_signed_decimal_reads_back(n as int);
    assert(l.subrange(8, l.len() - 1) =~= t);
    assert(l.subrange(0, 8) =~= "Unknown("@);
}

/// Known disk kinds are labelled `HDD` and `SSD`.
pub proof fn law_known_disk_labels()
    ensures
        disk_kind_label(DiskKind::Hdd) == "HDD"@,
        disk_kind_label(DiskKind::Ssd) == "SSD"@,
{
}

/// A disk's label tells its kind: two kinds with the same label are the
/// same kind, down to the number reported for an unknown kind.
pub proof fn law_disk_labels_identify_the_kind(a: DiskKind, b: DiskKind)
    requires
        disk_kind_label(a) == disk_kind_label(b),
    ensures
        a == b,
{
    reveal_strlit("HDD");
    reveal_strlit("SSD");
    reveal_strlit("Unknown(");
    reveal_strlit(")");
    let la = disk_kind_label(a);
    match (a, b) {
        (DiskKind::Unknown(n), DiskKind::Unknown(m)) => {
            let sn = signed_decimal(n as int);
            let sm = signed_decimal(m as int);
            assert(la.subrange(8, la.len() - 1) =~= sn);
            assert(la.subrange(8, la.len() - 1) =~= sm);
            lemma_signed_decimal_injective(n as int, m as int);
        },
        (DiskKind::Hdd, DiskKind::Ssd) => {
            assert(la[0] == 'H');
        },
        (DiskKind::Ssd, DiskKind::Hdd) => {
            assert(la[0] == 'S');
        },
        _ => {
            assert(la.len() == disk_kind_label(b).len());
        },
    }
}

/// Memory and swap, in bytes.
#[derive(Debug, Clone, Copy)]
pub struct Memory {
    pub total_memory: u64,
    pub used_memory: u64,
    pub total_swap: u64,
    pub used_swap: u64,
}

/// Traffic of one network interface, in bytes: since the last refresh and in total.
#[derive(Debug)]
pub struct Network {
    pub interface_name: String,
    pub received: u64,
    pub total_received: u64,
    pub transmitted: u64,
    pub total_transmitted: u64,
}

/// One processor as the report shows it; the usage is in whole percent.
#[derive(Debug)]
pub struct CpuInfo {
    pub name: String,
    pub cpu_usage: i32,
    pub brand: String,
}

/// One mounted disk as the report shows it; the space is in bytes.
#[derive(Debug)]
pub struct DiskInfo {
    pub kind: DiskKind,
    pub name: String,
    pub file_system: String,
    pub mount_point: String,
    pub total_space: u64,
    pub available_space: u64,
}

/// One running process as the report lists it: its id and its name.
#[derive(Debug)]
pub struct ProcessInfo {
    pub pid: usize,
    pub name: String,
}

/// No two processes of the listing share a process id.
pub open spec fn distinct_pids(processes: Seq<ProcessInfo>) -> bool {
    forall|i: int, j: int|
        0 <= i < processes.len() && 0 <= j < processes.len() && i != j ==> #[trigger] processes[i].pid
            != #[trigger] processes[j].pid
}

/// What was read from the operating system for one report. The names are
/// absent where the system could not tell them.
#[derive(Debug)]
pub struct SystemReadings {
    pub host_name: Option<String>,
    pub name: Option<String>,
    pub kernel_version: Option<String>,
    pub os_version: Option<String>,
    pub long_os_version: Option<String>,
    pub uptime: u64,
    pub cpus: Vec<CpuInfo>,
    pub global_cpu: CpuInfo,
    pub memory: Memory,
    pub disks: Vec<DiskInfo>,
    pub networks: Vec<Network>,
    pub processes: Vec<ProcessInfo>,
}

/// The system status report pushed to the dashboard.
#[derive(Debug)]
pub struct SysInfoExt {
    pub cpu_list: Vec<CpuInfo>,
    pub hostname: String,
    pub up_time: u64,
    pub system_name: String,
    pub system_kernel_version: String,
    pub os_version: String,
    pub long_os_version: String,
    pub global_cpu_info: CpuInfo,
    pub memory: Memory,
    pub disks: Vec<DiskInfo>,
    pub networks: Vec<Network>,
    pub processes: Vec<ProcessInfo>,
}

/// The text that stands for a name the system could not tell.
pub open spec fn unknown_name() -> Seq<char> {
    "Unknown"@
}

/// A reported name: the one read, or `Unknown`.
pub open spec fn name_or_unknown(name: Option<String>) -> Seq<char> {
    match name {
        Some(s) => s@,
        None => unknown_name(),
    }
}

/// A name that was read is reported exactly as read; only a name that
/// could not be read is reported as `Unknown`.
pub proof fn law_read_names_are_reported_unchanged(name: Option<String>)
    ensures
        name matches Some(s) ==> name_or_unknown(name) == s@,
        name is None ==> name_or_unknown(name) == "Unknown"@,
{
}

fn or_unknown(name: Option<String>) -> (text: String)
    ensures
        text@ == name_or_unknown(name),
        name matches Some(s) ==> text@ == s@,
        name is None ==> text@ == "Unknown"@,
{
    match name {
        Some(s) => s,
        None => {
            proof {
                reveal_strlit("Unknown");
            }
            String::from_str("Unknown")
        },
    }
}

impl SysInfoExt {
    /// Builds the report from one reading of the system: every name that
    /// could not be read becomes `Unknown`; everything else is carried over
    /// as read.
    pub fn new(readings: SystemReadings) -> (report: SysInfoExt)
        ensures
            report.hostname@ == name_or_unknown(readings.host_name),
            report.system_name@ == name_or_unknown(readings.name),
            report.system_kernel_version@ == name_or_unknown(readings.kernel_version),
            report.os_version@ == name_or_unknown(readings.os_version),
            report.long_os_version@ == name_or_unknown(readings.long_os_version),
            readings.host_name matches Some(s) ==> report.hostname@ == s@,
            readings.host_name is None ==> report.hostname@ == "Unknown"@,
            readings.name matches Some(s) ==> report.system_name@ == s@,
            readings.name is None ==> report.system_name@ == "Unknown"@,
            readings.kernel_version matches Some(s) ==> report.system_kernel_version@ == s@,
            readings.kernel_version is None ==> report.system_kernel_version@ == "Unknown"@,
            readings.os_version matches Some(s) ==> report.os_version@ == s@,
            readings.os_version is None ==> report.os_version@ == "Unknown"@,
            readings.long_os_version matches Some(s) ==> report.long_os_version@ == s@,
            readings.long_os_version is None ==> report.long_os_version@ == "Unknown"@,
            report.up_time == readings.uptime,
            report.cpu_list == readings.cpus,
            report.global_cpu_info == readings.global_cpu,
            report.memory == readings.memory,
            report.disks == readings.disks,
            report.networks == readings.networks,
            report.processes == readings.processes,
            report.processes@.len() == readings.processes@.len(),
            distinct_pids(readings.processes@) ==> distinct_pids(report.processes@),
    {
        SysInfoExt {
            cpu_list: readings.cpus,
            system_name: or_unknown(readings.name),
            up_time: readings.uptime,
            hostname: or_unknown(readings.host_name),
            system_kernel_version: or_unknown(readings.kernel_version),
            os_version: or_unknown(readings.os_version),
            long_os_version: or_unknown(readings.long_os_version),
            global_cpu_info: readings.global_cpu,
            memory: readings.memory,
            disks: readings.disks,
            networks: readings.networks,
            processes: readings.processes,
        }
    }
}

} // verus!
