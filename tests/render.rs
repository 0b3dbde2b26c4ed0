use below_view::model::{
    MemoryModelFieldId, SingleCpuModel, SingleCpuModelFieldId, SingleDiskModel, SingleNetModel,
    SingleNetModelFieldId,
};
use below_view::model_map::ModelMap;
use below_view::render_config::{RenderConfig, RenderFormat};
use below_view::text::{get_fixed_width, name_lt, push_decimal};
use below_view::view_item::{HasRenderConfig, Queriable, ViewItem};

fn config(width: Option<usize>, format: Option<RenderFormat>) -> RenderConfig {
    RenderConfig { title: Some("T".to_string()), width, format }
}

#[test]
fn fixed_width_pads_and_cuts() {
    assert_eq!(get_fixed_width("ab", 5), "ab   ");
    assert_eq!(get_fixed_width("abcdef", 3), "abc");
    assert_eq!(get_fixed_width("abc", 3), "abc");
    assert_eq!(get_fixed_width("", 2), "  ");
    assert_eq!(get_fixed_width("abc", 0), "");
    assert_eq!(get_fixed_width("ñandú", 4), "ñand");
}

#[test]
fn decimal_digits() {
    for n in [0u64, 7, 10, 1234567890, u64::MAX] {
        let mut s = String::new();
        push_decimal(&mut s, n);
        assert_eq!(s, n.to_string());
    }
}

#[test]
fn names_compare_lexicographically() {
    assert!(name_lt("sda", "sda1"));
    assert!(name_lt("sda1", "sdb"));
    assert!(!name_lt("sdb", "sda"));
    assert!(!name_lt("sda", "sda"));
    assert!(name_lt("", "a"));
    assert!(name_lt("Z", "a"));
}

#[test]
fn percent_format() {
    let c = config(None, Some(RenderFormat::Percent));
    assert_eq!(c.format_value(Some(555)), "55.5%");
    assert_eq!(c.format_value(Some(400)), "40.0%");
    assert_eq!(c.format_value(Some(5)), "0.5%");
    assert_eq!(c.format_value(Some(1000)), "100.0%");
    assert_eq!(c.format_value(None), "?");
}

#[test]
fn readable_size_format() {
    let c = config(None, Some(RenderFormat::ReadableSize));
    assert_eq!(c.format_value(Some(0)), "0 B");
    assert_eq!(c.format_value(Some(1023)), "1023 B");
    assert_eq!(c.format_value(Some(1024)), "1.0 KB");
    assert_eq!(c.format_value(Some(1536)), "1.5 KB");
    assert_eq!(c.format_value(Some(1024 * 1024 - 1)), "1023.9 KB");
    assert_eq!(c.format_value(Some(5 * 1024 * 1024 * 1024 * 1024)), "5.0 TB");
    assert_eq!(c.format_value(Some(1u64 << 50)), "1.0 PB");
    assert_eq!(c.format_value(Some(u64::MAX)), "15.9 EB");
}

#[test]
fn rate_formats() {
    let bytes = config(None, Some(RenderFormat::ReadableSizePerSec));
    assert_eq!(bytes.format_value(Some(2048)), "2.0 KB/s");
    let count = config(None, Some(RenderFormat::CountPerSec));
    assert_eq!(count.format_value(Some(42)), "42/s");
    let plain = config(None, None);
    assert_eq!(plain.format_value(Some(42)), "42");
}

#[test]
fn rendered_width_is_the_configured_width_for_any_value() {
    let formats = [
        None,
        Some(RenderFormat::Percent),
        Some(RenderFormat::ReadableSize),
        Some(RenderFormat::ReadableSizePerSec),
        Some(RenderFormat::CountPerSec),
    ];
    let values = [None, Some(0), Some(9), Some(555), Some(123456789), Some(u64::MAX)];
    for w in [0usize, 1, 4, 9, 17, 40] {
        for f in formats.iter() {
            for v in values.iter() {
                let r = config(Some(w), *f).render(*v);
                assert_eq!(r.chars().count(), w);
            }
        }
    }
}

#[test]
fn render_without_width_is_the_bare_text() {
    assert_eq!(config(None, Some(RenderFormat::Percent)).render(Some(555)), "55.5%");
}

#[test]
fn update_merges_and_leaves_the_original() {
    let model = SingleCpuModel { usage_pct: Some(555), user_pct: None, system_pct: None };
    let item = ViewItem::from_default(SingleCpuModelFieldId::UsagePct);
    let before = item.render(&model);
    let wide = item.update(RenderConfig::with_width(17));
    let after = item.render(&model);
    assert_eq!(before, after);
    assert_eq!(before, "55.5%     ");
    assert_eq!(wide.render(&model), "55.5%            ");
    assert_eq!(wide.config.get_title(), "Usage");
    assert_eq!(item.config.width, Some(10));
    assert_eq!(wide.config.width, Some(17));
}

#[test]
fn update_override_wins_on_every_part() {
    let base = config(Some(4), Some(RenderFormat::Percent));
    let over = RenderConfig {
        title: Some("New".to_string()),
        width: None,
        format: Some(RenderFormat::CountPerSec),
    };
    let merged = base.update(over);
    assert_eq!(merged.get_title(), "New");
    assert_eq!(merged.width, Some(4));
    assert_eq!(merged.format, Some(RenderFormat::CountPerSec));
    let empty = base.update(RenderConfig { title: None, width: None, format: None });
    assert_eq!(empty.get_title(), "T");
    assert_eq!(empty.render(Some(5)), base.render(Some(5)));
}

#[test]
fn missing_title_shows_a_question_mark() {
    let c = RenderConfig { title: None, width: None, format: None };
    assert_eq!(c.get_title(), "?");
}

#[test]
fn default_configs() {
    let mem = MemoryModelFieldId::Free.get_render_config();
    assert_eq!(mem.get_title(), "Free");
    assert_eq!(mem.format, Some(RenderFormat::ReadableSize));
    let net = SingleNetModelFieldId::ThroughputPerSec.get_render_config();
    assert_eq!(net.get_title(), "Throughput");
    assert_eq!(net.format, Some(RenderFormat::ReadableSizePerSec));
}

#[test]
fn models_answer_queries() {
    let cpu = SingleCpuModel { usage_pct: Some(1), user_pct: Some(2), system_pct: None };
    assert_eq!(cpu.query(&SingleCpuModelFieldId::UserPct), Some(2));
    assert_eq!(cpu.query(&SingleCpuModelFieldId::SystemPct), None);
    let net = SingleNetModel { throughput_per_sec: Some(9) };
    assert_eq!(net.query(&SingleNetModelFieldId::ThroughputPerSec), Some(9));
}

#[test]
fn model_map_insert_replaces_an_existing_name() {
    let mut m = ModelMap::new();
    m.insert("b".to_string(), SingleDiskModel { minor: Some(0), disk_total_bytes_per_sec: Some(1) });
    m.insert("a".to_string(), SingleDiskModel { minor: Some(0), disk_total_bytes_per_sec: Some(2) });
    m.insert("b".to_string(), SingleDiskModel { minor: Some(0), disk_total_bytes_per_sec: Some(3) });
    assert_eq!(m.len(), 2);
    assert_eq!(m.name_at(0), "a");
    assert_eq!(m.name_at(1), "b");
    assert_eq!(m.model_at(1).disk_total_bytes_per_sec, Some(3));
}

#[test]
fn duplicate_item_renders_the_same() {
    let model = SingleCpuModel { usage_pct: None, user_pct: Some(123), system_pct: None };
    let item = ViewItem::from_default(SingleCpuModelFieldId::UserPct).update(RenderConfig::with_width(6));
    let copy = item.duplicate();
    assert_eq!(copy.field_id, item.field_id);
    assert_eq!(copy.render(&model), item.render(&model));
    assert_eq!(copy.render(&model), "12.3% ");
}
