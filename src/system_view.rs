use vstd::prelude::*;

use crate::model::{
    MemoryModelFieldId, NetworkModel, SingleCpuModelFieldId, SingleDiskModel,
    SingleDiskModelFieldId, SingleNetModel, SingleNetModelFieldId, SystemModel,
    SystemModelFieldId, VmModelFieldId,
};
use crate::model_map::{lemma_same_entries_same_order, named_view, names_ascending, ModelMap};
use crate::render_config::{merge_config, title_of, RenderConfig, RenderConfigView};
use crate::text::{fixed_width, lemma_fixed_width_len, lex_lt, push_fixed_width};
use crate::view_item::{spec_render, HasRenderConfig, Queriable, ViewItem};

verus! {

/// Width of the row label column.
pub const ROW_NAME_WIDTH: usize = 15;

/// Width of the title (or entity name) in front of each value.
pub const ROW_FIELD_NAME_WIDTH: usize = 9;

/// Width of each value in a row.
pub const ROW_FIELD_WIDTH: usize = 17;

/// Items as field identifiers with config views.
pub open spec fn item_views<F>(items: Seq<ViewItem<F>>) -> Seq<(F, RenderConfigView)> {
    items.map_values(|it: ViewItem<F>| (it.field_id, it.config@))
}

/// Each field with its default config.
pub open spec fn default_items<F: HasRenderConfig>(fields: Seq<F>) -> Seq<(F, RenderConfigView)> {
    fields.map_values(|f: F| (f, f.spec_default_config()))
}

/// A config with the row's value width set on it.
pub open spec fn column_config(cfg: RenderConfigView) -> RenderConfigView {
    merge_config(
        cfg,
        RenderConfigView { title: None, width: Some(ROW_FIELD_WIDTH as nat), format: None },
    )
}

/// The title and value of each item, in order.
pub open spec fn fields_text<T: Queriable>(
    model: T,
    items: Seq<(T::FieldId, RenderConfigView)>,
) -> Seq<char>
    decreases items.len(),
{
    if items.len() == 0 {
        Seq::empty()
    } else {
        let (f, cfg) = items.last();
        fields_text(model, items.drop_last()) + fixed_width(title_of(cfg), ROW_FIELD_NAME_WIDTH as nat)
            + spec_render::<T>(f, column_config(cfg), model)
    }
}

/// A row of several fields of one model.
pub open spec fn spec_row<T: Queriable>(
    name: Seq<char>,
    model: T,
    items: Seq<(T::FieldId, RenderConfigView)>,
) -> Seq<char> {
    fixed_width(name, ROW_NAME_WIDTH as nat) + fields_text(model, items)
}

/// The name and value of each entity, in order.
pub open spec fn models_text<T: Queriable>(
    models: Seq<(Seq<char>, T)>,
    field_id: T::FieldId,
    cfg: RenderConfigView,
) -> Seq<char>
    decreases models.len(),
{
    if models.len() == 0 {
        Seq::empty()
    } else {
        let (name, model) = models.last();
        models_text(models.drop_last(), field_id, cfg) + fixed_width(
            name,
            ROW_FIELD_NAME_WIDTH as nat,
        ) + spec_render::<T>(field_id, cfg, model)
    }
}

/// A row of one field of several named models.
pub open spec fn spec_models_row<T: Queriable>(
    name: Seq<char>,
    models: Seq<(Seq<char>, T)>,
    field_id: T::FieldId,
    cfg: RenderConfigView,
) -> Seq<char> {
    fixed_width(name, ROW_NAME_WIDTH as nat) + models_text(models, field_id, column_config(cfg))
}

/// Renders `name`, then the title and value of each item of `model`, in the order given.
pub fn render_row<T: Queriable>(name: &str, model: &T, items: &Vec<ViewItem<T::FieldId>>) -> (r:
    String)
    ensures
        r@ == spec_row::<T>(name@, *model, item_views(items@)),
{
    let mut row = String::new();
    push_fixed_width(&mut row, name, ROW_NAME_WIDTH);
    let mut i: usize = 0;
    while i < items.len()
        invariant
            i <= items@.len(),
            row@ == fixed_width(name@, ROW_NAME_WIDTH as nat) + fields_text::<T>(
                *model,
                item_views(items@).take(i as int),
            ),
        decreases items@.len() - i,
    {
        let item = &items[i];
        push_fixed_width(&mut row, item.config.get_title(), ROW_FIELD_NAME_WIDTH);
        let column = item.update(RenderConfig::with_width(ROW_FIELD_WIDTH));
        let value = column.render(model);
        row.append(value.as_str());
        proof {
            let v = item_views(items@);
            assert(v.take(i + 1).drop_last() =~= v.take(i as int));
        }
        i = i + 1;
    }
    proof {
        assert(item_views(items@).take(i as int) =~= item_views(items@));
    }
    row
}

/// Renders `name`, then for each named model its name and `item`'s field, in the order given.
pub fn render_models_row<T: Queriable>(
    name: &str,
    models: &Vec<(String, T)>,
    item: ViewItem<T::FieldId>,
) -> (r: String)
    ensures
        r@ == spec_models_row::<T>(name@, named_view(models@), item.field_id, item.config@),
{
    let item = item.update(RenderConfig::with_width(ROW_FIELD_WIDTH));
    let mut row = String::new();
    push_fixed_width(&mut row, name, ROW_NAME_WIDTH);
    let mut i: usize = 0;
    while i < models.len()
        invariant
            i <= models@.len(),
            row@ == fixed_width(name@, ROW_NAME_WIDTH as nat) + models_text::<T>(
                named_view(models@).take(i as int),
                item.field_id,
                item.config@,
            ),
        decreases models@.len() - i,
    {
        let entry = &models[i];
        push_fixed_width(&mut row, entry.0.as_str(), ROW_FIELD_NAME_WIDTH);
        let value = item.render(&entry.1);
        row.append(value.as_str());
        proof {
            let v = named_view(models@);
            assert(v.take(i + 1).drop_last() =~= v.take(i as int));
        }
        i = i + 1;
    }
    proof {
        assert(named_view(models@).take(i as int) =~= named_view(models@));
    }
    row
}

/// The CPU fields of the CPU row, in the order shown.
pub open spec fn cpu_fields() -> Seq<SystemModelFieldId> {
    seq![
        SystemModelFieldId::Cpu(SingleCpuModelFieldId::UsagePct),
        SystemModelFieldId::Cpu(SingleCpuModelFieldId::UserPct),
        SystemModelFieldId::Cpu(SingleCpuModelFieldId::SystemPct),
    ]
}

/// The memory fields of the memory row, in the order shown.
pub open spec fn mem_fields() -> Seq<SystemModelFieldId> {
    seq![
        SystemModelFieldId::Mem(MemoryModelFieldId::Total),
        SystemModelFieldId::Mem(MemoryModelFieldId::Free),
        SystemModelFieldId::Mem(MemoryModelFieldId::Anon),
        SystemModelFieldId::Mem(MemoryModelFieldId::File),
    ]
}

/// The paging fields of the virtual-memory row, in the order shown.
pub open spec fn vm_fields() -> Seq<SystemModelFieldId> {
    seq![
        SystemModelFieldId::Vm(VmModelFieldId::PgpginPerSec),
        SystemModelFieldId::Vm(VmModelFieldId::PgpgoutPerSec),
        SystemModelFieldId::Vm(VmModelFieldId::PswpinPerSec),
        SystemModelFieldId::Vm(VmModelFieldId::PswpoutPerSec),
    ]
}

fn push_default(items: &mut Vec<ViewItem<SystemModelFieldId>>, field_id: SystemModelFieldId)
    ensures
        item_views(final(items)@) == item_views(old(items)@).push(
            (field_id, field_id.spec_default_config()),
        ),
{
    items.push(ViewItem::from_default(field_id));
    assert(item_views(items@) =~= item_views(old(items)@).push(
        (field_id, field_id.spec_default_config()),
    ));
}

/// The items of the CPU row.
pub fn sys_cpu_items() -> (r: Vec<ViewItem<SystemModelFieldId>>)
    ensures
        item_views(r@) == default_items(cpu_fields()),
{
    let mut v: Vec<ViewItem<SystemModelFieldId>> = Vec::new();
    push_default(&mut v, SystemModelFieldId::Cpu(SingleCpuModelFieldId::UsagePct));
    push_default(&mut v, SystemModelFieldId::Cpu(SingleCpuModelFieldId::UserPct));
    push_default(&mut v, SystemModelFieldId::Cpu(SingleCpuModelFieldId::SystemPct));
    assert(item_views(v@) =~= default_items(cpu_fields()));
    v
}

/// The items of the memory row.
pub fn sys_mem_items() -> (r: Vec<ViewItem<SystemModelFieldId>>)
    ensures
        item_views(r@) == default_items(mem_fields()),
{
    let mut v: Vec<ViewItem<SystemModelFieldId>> = Vec::new();
    push_default(&mut v, SystemModelFieldId::Mem(MemoryModelFieldId::Total));
    push_default(&mut v, SystemModelFieldId::Mem(MemoryModelFieldId::Free));
    push_default(&mut v, SystemModelFieldId::Mem(MemoryModelFieldId::Anon));
    push_default(&mut v, SystemModelFieldId::Mem(MemoryModelFieldId::File));
    assert(item_views(v@) =~= default_items(mem_fields()));
    v
}

/// The items of the virtual-memory row.
pub fn sys_vm_items() -> (r: Vec<ViewItem<SystemModelFieldId>>)
    ensures
        item_views(r@) == default_items(vm_fields()),
{
    let mut v: Vec<ViewItem<SystemModelFieldId>> = Vec::new();
    push_default(&mut v, SystemModelFieldId::Vm(VmModelFieldId::PgpginPerSec));
    push_default(&mut v, SystemModelFieldId::Vm(VmModelFieldId::PgpgoutPerSec));
    push_default(&mut v, SystemModelFieldId::Vm(VmModelFieldId::PswpinPerSec));
    push_default(&mut v, SystemModelFieldId::Vm(VmModelFieldId::PswpoutPerSec));
    assert(item_views(v@) =~= default_items(vm_fields()));
    v
}

/// The text of the CPU row of `model`.
pub open spec fn cpu_row_text(model: SystemModel) -> Seq<char> {
    spec_row::<SystemModel>("CPU"@, model, default_items(cpu_fields()))
}

/// The text of the memory row of `model`.
pub open spec fn mem_row_text(model: SystemModel) -> Seq<char> {
    spec_row::<SystemModel>("Mem"@, model, default_items(mem_fields()))
}

/// The text of the virtual-memory row of `model`.
pub open spec fn vm_row_text(model: SystemModel) -> Seq<char> {
    spec_row::<SystemModel>("VM"@, model, default_items(vm_fields()))
}

/// The whole disks of `disks`: those whose minor number is 0; partitions are left out.
pub open spec fn parent_disks(disks: Seq<(Seq<char>, SingleDiskModel)>) -> Seq<
    (Seq<char>, SingleDiskModel),
>
    decreases disks.len(),
{
    if disks.len() == 0 {
        disks
    } else {
        let rest = parent_disks(disks.drop_last());
        if disks.last().1.minor == Some(0u64) {
            rest.push(disks.last())
        } else {
            rest
        }
    }
}

/// The text of the I/O row: the total throughput of each whole disk.
pub open spec fn io_row_text(disks: Seq<(Seq<char>, SingleDiskModel)>) -> Seq<char> {
    let f = SingleDiskModelFieldId::DiskTotalBytesPerSec;
    spec_models_row::<SingleDiskModel>("I/O"@, parent_disks(disks), f, f.spec_default_config())
}

/// The text of the interface row: the throughput of each interface.
pub open spec fn iface_row_text(ifaces: Seq<(Seq<char>, SingleNetModel)>) -> Seq<char> {
    let f = SingleNetModelFieldId::ThroughputPerSec;
    spec_models_row::<SingleNetModel>("Iface"@, ifaces, f, f.spec_default_config())
}

pub fn render_cpu_row(model: &SystemModel) -> (r: String)
    ensures
        r@ == cpu_row_text(*model),
{
    render_row("CPU", model, &sys_cpu_items())
}

pub fn render_mem_row(model: &SystemModel) -> (r: String)
    ensures
        r@ == mem_row_text(*model),
{
    render_row("Mem", model, &sys_mem_items())
}

pub fn render_vm_row(model: &SystemModel) -> (r: String)
    ensures
        r@ == vm_row_text(*model),
{
    render_row("VM", model, &sys_vm_items())
}

pub fn render_io_row(disks: &ModelMap<SingleDiskModel>) -> (r: String)
    ensures
        r@ == io_row_text(disks.entries_view()),
{
    let entries = disks.entries();
    let ghost all = named_view(entries@);
    let mut parents: Vec<(String, SingleDiskModel)> = Vec::new();
    let mut i: usize = 0;
    while i < entries.len()
        invariant
            i <= entries@.len(),
            all == named_view(entries@),
            named_view(parents@) == parent_disks(all.take(i as int)),
        decreases entries@.len() - i,
    {
        let entry = &entries[i];
        proof {
            assert(all.take(i + 1).drop_last() =~= all.take(i as int));
        }
        if entry.1.minor == Some(0u64) {
            parents.push((entry.0.clone(), entry.1));
            assert(named_view(parents@) =~= parent_disks(all.take(i + 1)));
        }
        i = i + 1;
    }
    proof {
        assert(all.take(i as int) =~= all);
    }
    render_models_row(
        "I/O",
        &parents,
        ViewItem::from_default(SingleDiskModelFieldId::DiskTotalBytesPerSec),
    )
}

pub fn render_iface_row(ifaces: &ModelMap<SingleNetModel>) -> (r: String)
    ensures
        r@ == iface_row_text(ifaces.entries_view()),
{
    render_models_row(
        "Iface",
        ifaces.entries(),
        ViewItem::from_default(SingleNetModelFieldId::ThroughputPerSec),
    )
}

/// The labels of the five rows, in display order.
pub open spec fn row_labels() -> Seq<Seq<char>> {
    seq!["CPU"@, "Mem"@, "VM"@, "I/O"@, "Iface"@]
}

/// The five rows of the dashboard for a snapshot, in display order: CPU, memory,
/// virtual memory, disk I/O and network interfaces.
pub open spec fn system_rows(system: SystemModel, network: NetworkModel) -> Seq<Seq<char>> {
    seq![
        cpu_row_text(system),
        mem_row_text(system),
        vm_row_text(system),
        io_row_text(system.disks.entries_view()),
        iface_row_text(network.interfaces.entries_view()),
    ]
}

/// The rows of the dashboard, built from one snapshot.
#[derive(Debug)]
pub struct SystemView {
    rows: Vec<String>,
}

fn fill_content(system: &SystemModel, network: &NetworkModel) -> (r: Vec<String>)
    ensures
        r@.map_values(|row: String| row@) == system_rows(*system, *network),
{
    let mut rows: Vec<String> = Vec::new();
    rows.push(render_cpu_row(system));
    rows.push(render_mem_row(system));
    rows.push(render_vm_row(system));
    rows.push(render_io_row(&system.disks));
    rows.push(render_iface_row(&network.interfaces));
    assert(rows@.map_values(|row: String| row@) =~= system_rows(*system, *network));
    rows
}

impl SystemView {
    /// The text of each row, in display order.
    pub closed spec fn rows_view(&self) -> Seq<Seq<char>> {
        self.rows@.map_values(|row: String| row@)
    }

    /// Builds the rows from a snapshot.
    pub fn new(system: &SystemModel, network: &NetworkModel) -> (r: Self)
        ensures
            r.rows_view() == system_rows(*system, *network),
    {
        SystemView { rows: fill_content(system, network) }
    }

    /// Rebuilds the rows from a snapshot, replacing the ones shown.
    pub fn refresh(&mut self, system: &SystemModel, network: &NetworkModel)
        ensures
            final(self).rows_view() == system_rows(*system, *network),
    {
        self.rows = fill_content(system, network);
    }

    /// The rows, in display order.
    pub fn rows(&self) -> (r: &Vec<String>)
        ensures
            r@.map_values(|row: String| row@) == self.rows_view(),
    {
        &self.rows
    }
}

/// Every row starts with its label set to the label column's width, so the first
/// title of every row starts at the same column.
pub proof fn lemma_label_column(system: SystemModel, network: NetworkModel)
    ensures
        forall|i: int|
            0 <= i < 5 ==> {
                let row = #[trigger] system_rows(system, network)[i];
                &&& row.len() >= ROW_NAME_WIDTH
                &&& row.take(ROW_NAME_WIDTH as int) == fixed_width(
                    row_labels()[i],
                    ROW_NAME_WIDTH as nat,
                )
            },
{
    let rows = system_rows(system, network);
    assert forall|i: int| 0 <= i < 5 implies {
        let row = #[trigger] system_rows(system, network)[i];
        &&& row.len() >= ROW_NAME_WIDTH
        &&& row.take(ROW_NAME_WIDTH as int) == fixed_width(row_labels()[i], ROW_NAME_WIDTH as nat)
    } by {
        let label = fixed_width(row_labels()[i], ROW_NAME_WIDTH as nat);
        lemma_fixed_width_len(row_labels()[i], ROW_NAME_WIDTH as nat);
        let rest = if i == 0 {
            fields_text::<SystemModel>(system, default_items(cpu_fields()))
        } else if i == 1 {
            fields_text::<SystemModel>(system, default_items(mem_fields()))
        } else if i == 2 {
            fields_text::<SystemModel>(system, default_items(vm_fields()))
        } else if i == 3 {
            let f = SingleDiskModelFieldId::DiskTotalBytesPerSec;
            models_text::<SingleDiskModel>(
                parent_disks(system.disks.entries_view()),
                f,
                column_config(f.spec_default_config()),
            )
        } else {
            let f = SingleNetModelFieldId::ThroughputPerSec;
            models_text::<SingleNetModel>(
                network.interfaces.entries_view(),
                f,
                column_config(f.spec_default_config()),
            )
        };
        assert(rows[i] == label + rest);
        assert((label + rest).take(ROW_NAME_WIDTH as int) =~= label);
    }
}

proof fn lemma_parent_disks_within(disks: Seq<(Seq<char>, SingleDiskModel)>)
    ensures
        forall|k: int|
            0 <= k < parent_disks(disks).len() ==> disks.contains(#[trigger] parent_disks(disks)[k]),
    decreases disks.len(),
{
    if disks.len() > 0 {
        let init = disks.drop_last();
        lemma_parent_disks_within(init);
        assert forall|k: int| 0 <= k < parent_disks(disks).len() implies disks.contains(
            #[trigger] parent_disks(disks)[k],
        ) by {
            if k < parent_disks(init).len() {
                let e = parent_disks(init)[k];
                let m = choose|m: int| 0 <= m < init.len() && init[m] == e;
                assert(disks[m] == e);
            } else {
                assert(disks[disks.len() - 1] == disks.last());
            }
        }
    }
}

/// Filtering out partitions keeps the disks in ascending order of name.
proof fn lemma_parent_disks_ascending(disks: Seq<(Seq<char>, SingleDiskModel)>)
    requires
        names_ascending(disks),
    ensures
        names_ascending(parent_disks(disks)),
    decreases disks.len(),
{
    if disks.len() > 0 {
        let init = disks.drop_last();
        lemma_parent_disks_ascending(init);
        lemma_parent_disks_within(init);
        let rest = parent_disks(init);
        if disks.last().1.minor == Some(0u64) {
            let kept = rest.push(disks.last());
            assert forall|i: int, j: int| 0 <= i < j < kept.len() implies lex_lt(
                #[trigger] kept[i].0,
                #[trigger] kept[j].0,
            ) by {
                if j == rest.len() {
                    assert(init.contains(rest[i]));
                    let m = choose|m: int| 0 <= m < init.len() && init[m] == rest[i];
                    assert(disks[m] == rest[i]);
                } else {
                    assert(kept[i] == rest[i] && kept[j] == rest[j]);
                }
            }
        }
    }
}

/// The entities of the I/O and interface rows come in strictly ascending order of name.
pub proof fn lemma_row_entities_ascending(system: SystemModel, network: NetworkModel)
    requires
        system.disks.wf(),
        network.interfaces.wf(),
    ensures
        names_ascending(parent_disks(system.disks.entries_view())),
        names_ascending(network.interfaces.entries_view()),
{
    lemma_parent_disks_ascending(system.disks.entries_view());
}

/// Two well-formed collections that hold the same named models give the same row,
/// whatever order their entries were inserted in.
pub proof fn lemma_models_row_order_independent<T: Queriable>(
    name: Seq<char>,
    a: ModelMap<T>,
    b: ModelMap<T>,
    field_id: T::FieldId,
    cfg: RenderConfigView,
)
    requires
        a.wf(),
        b.wf(),
        forall|e: (Seq<char>, T)| a.entries_view().contains(e) <==> b.entries_view().contains(e),
    ensures
        a.entries_view() == b.entries_view(),
        spec_models_row::<T>(name, a.entries_view(), field_id, cfg) == spec_models_row::<T>(
            name,
            b.entries_view(),
            field_id,
            cfg,
        ),
{
    lemma_same_entries_same_order(a.entries_view(), b.entries_view());
}

/// A row of several fields reads the model only through its field values.
pub proof fn lemma_fields_text_same_values<T: Queriable>(
    m1: T,
    m2: T,
    items: Seq<(T::FieldId, RenderConfigView)>,
)
    requires
        forall|f: T::FieldId| m1.spec_query(f) == m2.spec_query(f),
    ensures
        fields_text::<T>(m1, items) == fields_text::<T>(m2, items),
    decreases items.len(),
{
    if items.len() > 0 {
        lemma_fields_text_same_values::<T>(m1, m2, items.drop_last());
        assert(m1.spec_query(items.last().0) == m2.spec_query(items.last().0));
    }
}

/// Whether two snapshots hold the same values: the same counters and the same
/// named disks and interfaces.
pub open spec fn same_snapshot(
    s1: SystemModel,
    n1: NetworkModel,
    s2: SystemModel,
    n2: NetworkModel,
) -> bool {
    &&& s1.cpu == s2.cpu
    &&& s1.mem == s2.mem
    &&& s1.vm == s2.vm
    &&& s1.disks.entries_view() == s2.disks.entries_view()
    &&& n1.interfaces.entries_view() == n2.interfaces.entries_view()
}

/// Refreshing a view with a snapshot that holds the values it was built from
/// reproduces every row exactly.
pub proof fn lemma_refresh_unchanged_snapshot(
    built: SystemView,
    refreshed: SystemView,
    s1: SystemModel,
    n1: NetworkModel,
    s2: SystemModel,
    n2: NetworkModel,
)
    requires
        built.rows_view() == system_rows(s1, n1),
        refreshed.rows_view() == system_rows(s2, n2),
        same_snapshot(s1, n1, s2, n2),
    ensures
        refreshed.rows_view() == built.rows_view(),
{
    assert forall|f: SystemModelFieldId| s1.spec_query(f) == s2.spec_query(f) by {}
    lemma_fields_text_same_values::<SystemModel>(s1, s2, default_items(cpu_fields()));
    lemma_fields_text_same_values::<SystemModel>(s1, s2, default_items(mem_fields()));
    lemma_fields_text_same_values::<SystemModel>(s1, s2, default_items(vm_fields()));
    assert(system_rows(s1, n1) =~= system_rows(s2, n2));
}

} // verus!
