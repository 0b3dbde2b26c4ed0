use below_view::model::{
    MemoryModel, NetworkModel, SingleCpuModel, SingleCpuModelFieldId, SingleDiskModel,
    SingleDiskModelFieldId, SingleNetModel, SystemModel, SystemModelFieldId, VmModel,
};
use below_view::model_map::ModelMap;
use below_view::render_config::RenderConfig;
use below_view::system_view::{
    render_cpu_row, render_iface_row, render_io_row, render_mem_row, render_models_row,
    render_row, render_vm_row, sys_cpu_items, SystemView,
};
use below_view::view_item::ViewItem;

fn pad(s: &str, w: usize) -> String {
    format!("{:<w$.w$}", s, w = w)
}

fn empty_system() -> SystemModel {
    SystemModel {
        cpu: SingleCpuModel { usage_pct: None, user_pct: None, system_pct: None },
        mem: MemoryModel { total: None, free: None, anon: None, file: None },
        vm: VmModel {
            pgpgin_per_sec: None,
            pgpgout_per_sec: None,
            pswpin_per_sec: None,
            pswpout_per_sec: None,
        },
        disks: ModelMap::new(),
    }
}

fn disk(minor: u64, bytes: u64) -> SingleDiskModel {
    SingleDiskModel { minor: Some(minor), disk_total_bytes_per_sec: Some(bytes) }
}

fn sample_system() -> SystemModel {
    let mut s = empty_system();
    s.cpu = SingleCpuModel { usage_pct: Some(555), user_pct: Some(400), system_pct: Some(155) };
    s.mem = MemoryModel {
        total: Some(16 * 1024 * 1024 * 1024),
        free: Some(1536 * 1024),
        anon: Some(512),
        file: None,
    };
    s.vm = VmModel {
        pgpgin_per_sec: Some(12),
        pgpgout_per_sec: Some(0),
        pswpin_per_sec: Some(3),
        pswpout_per_sec: None,
    };
    s.disks.insert("sdb".to_string(), disk(0, 2048));
    s.disks.insert("sda1".to_string(), disk(1, 100));
    s.disks.insert("sda".to_string(), disk(0, 10));
    s
}

fn sample_network() -> NetworkModel {
    let mut interfaces = ModelMap::new();
    interfaces.insert("lo".to_string(), SingleNetModel { throughput_per_sec: Some(0) });
    interfaces.insert("eth0".to_string(), SingleNetModel { throughput_per_sec: Some(3 * 1024 * 1024) });
    NetworkModel { interfaces }
}

#[test]
fn cpu_row_shows_three_percentages() {
    let row = render_cpu_row(&sample_system());
    let expected = format!(
        "{}{}{}{}{}{}{}",
        pad("CPU", 15),
        pad("Usage", 9),
        pad("55.5%", 17),
        pad("User", 9),
        pad("40.0%", 17),
        pad("System", 9),
        pad("15.5%", 17)
    );
    assert_eq!(row, expected);
}

#[test]
fn cpu_values_read_back_as_numbers() {
    let row = render_cpu_row(&sample_system());
    let values: Vec<f64> = [15 + 9, 15 + 9 + 17 + 9, 15 + 2 * (9 + 17) + 9]
        .iter()
        .map(|&start| row[start..start + 17].trim().trim_end_matches('%').parse::<f64>().unwrap())
        .collect();
    assert_eq!(values, vec![55.5, 40.0, 15.5]);
}

#[test]
fn mem_row_uses_readable_sizes() {
    let row = render_mem_row(&sample_system());
    let expected = format!(
        "{}{}{}{}{}{}{}{}{}",
        pad("Mem", 15),
        pad("Total", 9),
        pad("16.0 GB", 17),
        pad("Free", 9),
        pad("1.5 MB", 17),
        pad("Anon", 9),
        pad("512 B", 17),
        pad("File", 9),
        pad("?", 17)
    );
    assert_eq!(row, expected);
}

#[test]
fn vm_row_uses_counts_per_second() {
    let row = render_vm_row(&sample_system());
    let expected = format!(
        "{}{}{}{}{}{}{}{}{}",
        pad("VM", 15),
        pad("Page In", 9),
        pad("12/s", 17),
        pad("Page Out", 9),
        pad("0/s", 17),
        pad("Swap In", 9),
        pad("3/s", 17),
        pad("Swap Out", 9),
        pad("?", 17)
    );
    assert_eq!(row, expected);
}

#[test]
fn io_row_keeps_whole_disks_in_name_order() {
    let row = render_io_row(&sample_system().disks);
    let expected = format!(
        "{}{}{}{}{}",
        pad("I/O", 15),
        pad("sda", 9),
        pad("10 B/s", 17),
        pad("sdb", 9),
        pad("2.0 KB/s", 17)
    );
    assert_eq!(row, expected);
    assert!(!row.contains("sda1"));
}

#[test]
fn io_row_of_no_disks_is_the_label_alone() {
    let row = render_io_row(&ModelMap::new());
    assert_eq!(row, pad("I/O", 15));
}

#[test]
fn io_row_of_partitions_only_is_the_label_alone() {
    let mut disks = ModelMap::new();
    disks.insert("sda1".to_string(), disk(1, 5));
    disks.insert("sda2".to_string(), disk(2, 5));
    assert_eq!(render_io_row(&disks), pad("I/O", 15));
}

#[test]
fn iface_row_lists_every_interface_in_name_order() {
    let row = render_iface_row(&sample_network().interfaces);
    let expected = format!(
        "{}{}{}{}{}",
        pad("Iface", 15),
        pad("eth0", 9),
        pad("3.0 MB/s", 17),
        pad("lo", 9),
        pad("0 B/s", 17)
    );
    assert_eq!(row, expected);
}

#[test]
fn entity_order_does_not_depend_on_insertion_order() {
    let names = ["sdc", "sda", "nvme0n1", "sdb", "loop0"];
    let mut forward = ModelMap::new();
    for n in names.iter() {
        forward.insert(n.to_string(), disk(0, 1));
    }
    let mut backward = ModelMap::new();
    for n in names.iter().rev() {
        backward.insert(n.to_string(), disk(0, 1));
    }
    let a = render_io_row(&forward);
    let b = render_io_row(&backward);
    assert_eq!(a, b);
    let mut sorted: Vec<&str> = names.to_vec();
    sorted.sort();
    let order: Vec<String> = forward.entries().iter().map(|e| e.0.clone()).collect();
    assert_eq!(order, sorted);
}

#[test]
fn label_column_has_the_same_width_in_every_row() {
    let system = sample_system();
    let network = sample_network();
    let view = SystemView::new(&system, &network);
    let rows = view.rows();
    assert_eq!(rows.len(), 5);
    let labels = ["CPU", "Mem", "VM", "I/O", "Iface"];
    for (row, label) in rows.iter().zip(labels.iter()) {
        assert_eq!(&row[..15], pad(label, 15));
        assert_ne!(&row[15..16], " ");
    }
}

#[test]
fn refresh_with_an_unchanged_snapshot_gives_identical_rows() {
    let system = sample_system();
    let network = sample_network();
    let mut view = SystemView::new(&system, &network);
    let before = view.rows().clone();
    view.refresh(&system, &network);
    assert_eq!(view.rows(), &before);
}

#[test]
fn refresh_shows_the_new_snapshot() {
    let system = sample_system();
    let network = sample_network();
    let mut view = SystemView::new(&system, &network);
    let mut changed = sample_system();
    changed.cpu.usage_pct = Some(1000);
    view.refresh(&changed, &network);
    assert_eq!(view.rows()[0], render_cpu_row(&changed));
    assert!(view.rows()[0].contains("100.0%"));
    assert_eq!(view.rows()[1], render_mem_row(&system));
}

#[test]
fn render_row_keeps_the_given_item_order() {
    let system = sample_system();
    let items = vec![
        ViewItem::from_default(SystemModelFieldId::Cpu(SingleCpuModelFieldId::SystemPct)),
        ViewItem::from_default(SystemModelFieldId::Cpu(SingleCpuModelFieldId::UsagePct)),
    ];
    let row = render_row("Custom", &system, &items);
    let expected = format!(
        "{}{}{}{}{}",
        pad("Custom", 15),
        pad("System", 9),
        pad("15.5%", 17),
        pad("Usage", 9),
        pad("55.5%", 17)
    );
    assert_eq!(row, expected);
}

#[test]
fn render_row_of_no_items_is_the_label_alone() {
    let row = render_row("Nothing", &sample_system(), &Vec::new());
    assert_eq!(row, pad("Nothing", 15));
}

#[test]
fn long_labels_and_titles_are_cut() {
    let mut items = sys_cpu_items();
    items[0].config.title = Some("Utilisation".to_string());
    let row = render_row("A very long row label", &sample_system(), &items);
    assert_eq!(&row[..15], "A very long row");
    assert_eq!(&row[15..24], "Utilisati");
    assert_eq!(row.chars().count(), 15 + 3 * (9 + 17));
}

#[test]
fn render_models_row_keeps_the_given_order() {
    let models = vec![
        ("zeta".to_string(), disk(0, 1)),
        ("alpha".to_string(), disk(0, 2)),
    ];
    let item = ViewItem::from_default(SingleDiskModelFieldId::DiskTotalBytesPerSec);
    let row = render_models_row("Disks", &models, item);
    let expected = format!(
        "{}{}{}{}{}",
        pad("Disks", 15),
        pad("zeta", 9),
        pad("1 B/s", 17),
        pad("alpha", 9),
        pad("2 B/s", 17)
    );
    assert_eq!(row, expected);
}

#[test]
fn models_row_value_width_overrides_the_default() {
    let models = vec![("sda".to_string(), disk(0, 1))];
    let mut item = ViewItem::from_default(SingleDiskModelFieldId::DiskTotalBytesPerSec);
    item.config = item.config.update(RenderConfig::with_width(3));
    let row = render_models_row("I/O", &models, item);
    assert_eq!(row.len(), 15 + 9 + 17);
}
