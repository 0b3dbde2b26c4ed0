use vstd::prelude::*;

use crate::model_map::ModelMap;
use crate::render_config::{RenderConfig, RenderConfigView, RenderFormat};
use crate::view_item::{HasRenderConfig, Queriable};

verus! {

/// The width a field is shown at unless a row sets another.
pub const DEFAULT_FIELD_WIDTH: usize = 10;

/// The default config of a field with `title` and `format`.
pub open spec fn default_config(title: Seq<char>, format: RenderFormat) -> RenderConfigView {
    RenderConfigView {
        title: Some(title),
        width: Some(DEFAULT_FIELD_WIDTH as nat),
        format: Some(format),
    }
}

fn make_config(title: &str, format: RenderFormat) -> (r: RenderConfig)
    ensures
        r@ == default_config(title@, format),
{
    RenderConfig {
        title: Some(String::from_str(title)),
        width: Some(DEFAULT_FIELD_WIDTH),
        format: Some(format),
    }
}

/// Fields of the CPU model; percentages are in tenths of a percent.
#[derive(Clone, Copy, Debug, PartialEq, Eq, Structural, PartialOrd, Ord, Hash)]
pub enum SingleCpuModelFieldId {
    UsagePct,
    UserPct,
    SystemPct,
}

impl SingleCpuModelFieldId {
    /// The title of the field.
    pub open spec fn spec_title(&self) -> Seq<char> {
        match self {
            SingleCpuModelFieldId::UsagePct => "Usage"@,
            SingleCpuModelFieldId::UserPct => "User"@,
            SingleCpuModelFieldId::SystemPct => "System"@,
        }
    }

    fn title(&self) -> (r: &'static str)
        ensures
            r@ == self.spec_title(),
    {
        match self {
            SingleCpuModelFieldId::UsagePct => "Usage",
            SingleCpuModelFieldId::UserPct => "User",
            SingleCpuModelFieldId::SystemPct => "System",
        }
    }
}

impl HasRenderConfig for SingleCpuModelFieldId {
    open spec fn spec_default_config(&self) -> RenderConfigView {
        default_config(self.spec_title(), RenderFormat::Percent)
    }

    fn get_render_config(&self) -> (r: RenderConfig) {
        make_config(self.title(), RenderFormat::Percent)
    }
}

/// Fields of the memory model, in bytes.
#[derive(Clone, Copy, Debug, PartialEq, Eq, Structural, PartialOrd, Ord, Hash)]
pub enum MemoryModelFieldId {
    Total,
    Free,
    Anon,
    File,
}

impl MemoryModelFieldId {
    /// The title of the field.
    pub open spec fn spec_title(&self) -> Seq<char> {
        match self {
            MemoryModelFieldId::Total => "Total"@,
            MemoryModelFieldId::Free => "Free"@,
            MemoryModelFieldId::Anon => "Anon"@,
            MemoryModelFieldId::File => "File"@,
        }
    }

    fn title(&self) -> (r: &'static str)
        ensures
            r@ == self.spec_title(),
    {
        match self {
            MemoryModelFieldId::Total => "Total",
            MemoryModelFieldId::Free => "Free",
            MemoryModelFieldId::Anon => "Anon",
            MemoryModelFieldId::File => "File",
        }
    }
}

impl HasRenderConfig for MemoryModelFieldId {
    open spec fn spec_default_config(&self) -> RenderConfigView {
        default_config(self.spec_title(), RenderFormat::ReadableSize)
    }

    fn get_render_config(&self) -> (r: RenderConfig) {
        make_config(self.title(), RenderFormat::ReadableSize)
    }
}

/// Fields of the virtual-memory model, in pages per second.
#[derive(Clone, Copy, Debug, PartialEq, Eq, Structural, PartialOrd, Ord, Hash)]
pub enum VmModelFieldId {
    PgpginPerSec,
    PgpgoutPerSec,
    PswpinPerSec,
    PswpoutPerSec,
}

impl VmModelFieldId {
    /// The title of the field.
    pub open spec fn spec_title(&self) -> Seq<char> {
        match self {
            VmModelFieldId::PgpginPerSec => "Page In"@,
            VmModelFieldId::PgpgoutPerSec => "Page Out"@,
            VmModelFieldId::PswpinPerSec => "Swap In"@,
            VmModelFieldId::PswpoutPerSec => "Swap Out"@,
        }
    }

    fn title(&self) -> (r: &'static str)
        ensures
            r@ == self.spec_title(),
    {
        match self {
            VmModelFieldId::PgpginPerSec => "Page In",
            VmModelFieldId::PgpgoutPerSec => "Page Out",
            VmModelFieldId::PswpinPerSec => "Swap In",
            VmModelFieldId::PswpoutPerSec => "Swap Out",
        }
    }
}

impl HasRenderConfig for VmModelFieldId {
    open spec fn spec_default_config(&self) -> RenderConfigView {
        default_config(self.spec_title(), RenderFormat::CountPerSec)
    }

    fn get_render_config(&self) -> (r: RenderConfig) {
        make_config(self.title(), RenderFormat::CountPerSec)
    }
}

/// Fields of a disk model, in bytes per second.
#[derive(Clone, Copy, Debug, PartialEq, Eq, Structural, PartialOrd, Ord, Hash)]
pub enum SingleDiskModelFieldId {
    DiskTotalBytesPerSec,
}

impl SingleDiskModelFieldId {
    /// The title of the field.
    pub open spec fn spec_title(&self) -> Seq<char> {
        match self {
            SingleDiskModelFieldId::DiskTotalBytesPerSec => "Total"@,
        }
    }

    fn title(&self) -> (r: &'static str)
        ensures
            r@ == self.spec_title(),
    {
        match self {
            SingleDiskModelFieldId::DiskTotalBytesPerSec => "Total",
        }
    }
}

impl HasRenderConfig for SingleDiskModelFieldId {
    open spec fn spec_default_config(&self) -> RenderConfigView {
        default_config(self.spec_title(), RenderFormat::ReadableSizePerSec)
    }

    fn get_render_config(&self) -> (r: RenderConfig) {
        make_config(self.title(), RenderFormat::ReadableSizePerSec)
    }
}

/// Fields of a network interface model, in bytes per second.
#[derive(Clone, Copy, Debug, PartialEq, Eq, Structural, PartialOrd, Ord, Hash)]
pub enum SingleNetModelFieldId {
    ThroughputPerSec,
}

impl SingleNetModelFieldId {
    /// The title of the field.
    pub open spec fn spec_title(&self) -> Seq<char> {
        match self {
            SingleNetModelFieldId::ThroughputPerSec => "Throughput"@,
        }
    }

    fn title(&self) -> (r: &'static str)
        ensures
            r@ == self.spec_title(),
    {
        match self {
            SingleNetModelFieldId::ThroughputPerSec => "Throughput",
        }
    }
}

impl HasRenderConfig for SingleNetModelFieldId {
    open spec fn spec_default_config(&self) -> RenderConfigView {
        default_config(self.spec_title(), RenderFormat::ReadableSizePerSec)
    }

    fn get_render_config(&self) -> (r: RenderConfig) {
        make_config(self.title(), RenderFormat::ReadableSizePerSec)
    }
}

/// Fields of the system model: a field of one of its parts.
#[derive(Clone, Copy, Debug, PartialEq, Eq, Structural, PartialOrd, Ord, Hash)]
pub enum SystemModelFieldId {
    Cpu(SingleCpuModelFieldId),
    Mem(MemoryModelFieldId),
    Vm(VmModelFieldId),
}

impl HasRenderConfig for SystemModelFieldId {
    open spec fn spec_default_config(&self) -> RenderConfigView {
        match self {
            SystemModelFieldId::Cpu(f) => f.spec_default_config(),
            SystemModelFieldId::Mem(f) => f.spec_default_config(),
            SystemModelFieldId::Vm(f) => f.spec_default_config(),
        }
    }

    fn get_render_config(&self) -> (r: RenderConfig) {
        match self {
            SystemModelFieldId::Cpu(f) => f.get_render_config(),
            SystemModelFieldId::Mem(f) => f.get_render_config(),
            SystemModelFieldId::Vm(f) => f.get_render_config(),
        }
    }
}

/// CPU usage, in tenths of a percent (`555` is 55.5%).
#[derive(Clone, Copy, Debug, PartialEq, Eq, Structural)]
pub struct SingleCpuModel {
    pub usage_pct: Option<u64>,
    pub user_pct: Option<u64>,
    pub system_pct: Option<u64>,
}

impl Queriable for SingleCpuModel {
    type FieldId = SingleCpuModelFieldId;

    open spec fn spec_query(&self, field_id: SingleCpuModelFieldId) -> Option<u64> {
        match field_id {
            SingleCpuModelFieldId::UsagePct => self.usage_pct,
            SingleCpuModelFieldId::UserPct => self.user_pct,
            SingleCpuModelFieldId::SystemPct => self.system_pct,
        }
    }

    fn query(&self, field_id: &SingleCpuModelFieldId) -> (r: Option<u64>) {
        match field_id {
            SingleCpuModelFieldId::UsagePct => self.usage_pct,
            SingleCpuModelFieldId::UserPct => self.user_pct,
            SingleCpuModelFieldId::SystemPct => self.system_pct,
        }
    }
}

/// Memory, in bytes.
#[derive(Clone, Copy, Debug, PartialEq, Eq, Structural)]
pub struct MemoryModel {
    pub total: Option<u64>,
    pub free: Option<u64>,
    pub anon: Option<u64>,
    pub file: Option<u64>,
}

impl Queriable for MemoryModel {
    type FieldId = MemoryModelFieldId;

    open spec fn spec_query(&self, field_id: MemoryModelFieldId) -> Option<u64> {
        match field_id {
            MemoryModelFieldId::Total => self.total,
            MemoryModelFieldId::Free => self.free,
            MemoryModelFieldId::Anon => self.anon,
            MemoryModelFieldId::File => self.file,
        }
    }

    fn query(&self, field_id: &MemoryModelFieldId) -> (r: Option<u64>) {
        match field_id {
            MemoryModelFieldId::Total => self.total,
            MemoryModelFieldId::Free => self.free,
            MemoryModelFieldId::Anon => self.anon,
            MemoryModelFieldId::File => self.file,
        }
    }
}

/// Paging and swapping, in pages per second.
#[derive(Clone, Copy, Debug, PartialEq, Eq, Structural)]
pub struct VmModel {
    pub pgpgin_per_sec: Option<u64>,
    pub pgpgout_per_sec: Option<u64>,
    pub pswpin_per_sec: Option<u64>,
    pub pswpout_per_sec: Option<u64>,
}

impl Queriable for VmModel {
    type FieldId = VmModelFieldId;

    open spec fn spec_query(&self, field_id: VmModelFieldId) -> Option<u64> {
        match field_id {
            VmModelFieldId::PgpginPerSec => self.pgpgin_per_sec,
            VmModelFieldId::PgpgoutPerSec => self.pgpgout_per_sec,
            VmModelFieldId::PswpinPerSec => self.pswpin_per_sec,
            VmModelFieldId::PswpoutPerSec => self.pswpout_per_sec,
        }
    }

    fn query(&self, field_id: &VmModelFieldId) -> (r: Option<u64>) {
        match field_id {
            VmModelFieldId::PgpginPerSec => self.pgpgin_per_sec,
            VmModelFieldId::PgpgoutPerSec => self.pgpgout_per_sec,
            VmModelFieldId::PswpinPerSec => self.pswpin_per_sec,
            VmModelFieldId::PswpoutPerSec => self.pswpout_per_sec,
        }
    }
}

/// One block device. `minor` is its device minor number: 0 for a whole disk,
/// above 0 for a partition.
#[derive(Clone, Copy, Debug, PartialEq, Eq, Structural)]
pub struct SingleDiskModel {
    pub minor: Option<u64>,
    pub disk_total_bytes_per_sec: Option<u64>,
}

impl Queriable for SingleDiskModel {
    type FieldId = SingleDiskModelFieldId;

    open spec fn spec_query(&self, field_id: SingleDiskModelFieldId) -> Option<u64> {
        self.disk_total_bytes_per_sec
    }

    fn query(&self, field_id: &SingleDiskModelFieldId) -> (r: Option<u64>) {
        self.disk_total_bytes_per_sec
    }
}

/// One network interface.
#[derive(Clone, Copy, Debug, PartialEq, Eq, Structural)]
pub struct SingleNetModel {
    pub throughput_per_sec: Option<u64>,
}

impl Queriable for SingleNetModel {
    type FieldId = SingleNetModelFieldId;

    open spec fn spec_query(&self, field_id: SingleNetModelFieldId) -> Option<u64> {
        self.throughput_per_sec
    }

    fn query(&self, field_id: &SingleNetModelFieldId) -> (r: Option<u64>) {
        self.throughput_per_sec
    }
}

/// System-wide counters and the disks, by name.
#[derive(Debug)]
pub struct SystemModel {
    pub cpu: SingleCpuModel,
    pub mem: MemoryModel,
    pub vm: VmModel,
    pub disks: ModelMap<SingleDiskModel>,
}

impl Queriable for SystemModel {
    type FieldId = SystemModelFieldId;

    open spec fn spec_query(&self, field_id: SystemModelFieldId) -> Option<u64> {
        match field_id {
            SystemModelFieldId::Cpu(f) => self.cpu.spec_query(f),
            SystemModelFieldId::Mem(f) => self.mem.spec_query(f),
            SystemModelFieldId::Vm(f) => self.vm.spec_query(f),
        }
    }

    fn query(&self, field_id: &SystemModelFieldId) -> (r: Option<u64>) {
        match field_id {
            SystemModelFieldId::Cpu(f) => self.cpu.query(f),
            SystemModelFieldId::Mem(f) => self.mem.query(f),
            SystemModelFieldId::Vm(f) => self.vm.query(f),
        }
    }
}

/// The network interfaces, by name.
#[derive(Debug)]
pub struct NetworkModel {
    pub interfaces: ModelMap<SingleNetModel>,
}

} // verus!
