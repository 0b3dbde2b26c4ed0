use vstd::prelude::*;
use vstd::arithmetic::div_mod::lemma_multiply_divide_lt;

use crate::text::{
    decimal, digit_char, digit_str, fixed_width, get_fixed_width, lemma_fixed_width_len, push_decimal,
};

verus! {

/// How a field's integer value is written.
#[derive(Clone, Copy, Debug, PartialEq, Eq, Structural)]
pub enum RenderFormat {
    /// A value in tenths of a percent, written with one decimal: `555` is `55.5%`.
    Percent,
    /// A number of bytes, scaled to the largest binary unit that keeps it at least one.
    ReadableSize,
    /// A number of bytes per second, scaled as `ReadableSize`.
    ReadableSizePerSec,
    /// A count per second.
    CountPerSec,
}

/// Display metadata of a field. Every part is optional, so that a config can also
/// serve as a partial override of another one.
#[derive(Debug)]
pub struct RenderConfig {
    pub title: Option<String>,
    pub width: Option<usize>,
    pub format: Option<RenderFormat>,
}

/// The mathematical content of a `RenderConfig`.
pub struct RenderConfigView {
    pub title: Option<Seq<char>>,
    pub width: Option<nat>,
    pub format: Option<RenderFormat>,
}

impl View for RenderConfig {
    type V = RenderConfigView;

    open spec fn view(&self) -> RenderConfigView {
        RenderConfigView {
            title: match self.title {
                Some(t) => Some(t@),
                None => None,
            },
            width: match self.width {
                Some(w) => Some(w as nat),
                None => None,
            },
            format: self.format,
        }
    }
}

/// `over` merged onto `base`: each part that `over` sets wins.
pub open spec fn merge_config(base: RenderConfigView, over: RenderConfigView) -> RenderConfigView {
    RenderConfigView {
        title: if over.title is Some {
            over.title
        } else {
            base.title
        },
        width: if over.width is Some {
            over.width
        } else {
            base.width
        },
        format: if over.format is Some {
            over.format
        } else {
            base.format
        },
    }
}

/// The title shown for a field; a config without one shows `?`.
pub open spec fn title_of(cfg: RenderConfigView) -> Seq<char> {
    match cfg.title {
        Some(t) => t,
        None => "?"@,
    }
}

/// 1024 to the power `k`.
pub open spec fn pow1024(k: nat) -> nat
    decreases k,
{
    if k == 0 {
        1
    } else {
        1024 * pow1024((k - 1) as nat)
    }
}

/// The largest unit index `j` with `k <= j <= 6` whose steps from `k` up all keep `v >= 1024^j`.
pub open spec fn size_unit_from(v: nat, k: nat) -> nat
    decreases 6 - k,
{
    if k < 6 && v >= pow1024(k + 1) {
        size_unit_from(v, k + 1)
    } else {
        k
    }
}

/// The binary unit that `v` bytes are written in: 0 for bytes, 1 for KB, up to 6 for EB.
pub open spec fn size_unit(v: nat) -> nat {
    size_unit_from(v, 0)
}

/// The name of binary unit `k` (1 to 6).
pub open spec fn unit_name(k: nat) -> Seq<char> {
    if k == 1 {
        "KB"@
    } else if k == 2 {
        "MB"@
    } else if k == 3 {
        "GB"@
    } else if k == 4 {
        "TB"@
    } else if k == 5 {
        "PB"@
    } else {
        "EB"@
    }
}

/// `v` bytes in a readable unit: `512 B`, or the whole and first decimal of
/// `v / 1024^k` (rounded down) and the unit, as `1.5 KB`.
pub open spec fn readable_size(v: nat) -> Seq<char> {
    let k = size_unit(v);
    let d = pow1024(k);
    if k == 0 {
        decimal(v) + " B"@
    } else {
        decimal(v / d) + "."@ + seq![digit_char((v % d) * 10 / d)] + " "@ + unit_name(k)
    }
}

/// The text of value `v` under `format`; without a format the plain decimal.
pub open spec fn format_value(format: Option<RenderFormat>, v: nat) -> Seq<char> {
    match format {
        None => decimal(v),
        Some(RenderFormat::Percent) => decimal(v / 10) + "."@ + seq![digit_char(v % 10)] + "%"@,
        Some(RenderFormat::ReadableSize) => readable_size(v),
        Some(RenderFormat::ReadableSizePerSec) => readable_size(v) + "/s"@,
        Some(RenderFormat::CountPerSec) => decimal(v) + "/s"@,
    }
}

/// The text of a field value before any width is applied; a missing value is `?`.
pub open spec fn value_text(cfg: RenderConfigView, value: Option<u64>) -> Seq<char> {
    match value {
        None => "?"@,
        Some(v) => format_value(cfg.format, v as nat),
    }
}

/// What a field value renders to under `cfg`: its text, set to the configured width if any.
pub open spec fn render_text(cfg: RenderConfigView, value: Option<u64>) -> Seq<char> {
    match cfg.width {
        Some(w) => fixed_width(value_text(cfg, value), w),
        None => value_text(cfg, value),
    }
}

/// Whatever the value, a config with a width renders it to exactly that many characters.
pub proof fn lemma_render_width(cfg: RenderConfigView, value: Option<u64>)
    requires
        cfg.width is Some,
    ensures
        render_text(cfg, value).len() == cfg.width->0,
{
    lemma_fixed_width_len(value_text(cfg, value), cfg.width->0);
}

proof fn lemma_pow1024_small(k: nat)
    requires
        k <= 5,
    ensures
        1 <= pow1024(k) <= 1125899906842624,
{
    reveal_with_fuel(pow1024, 6);
    if k == 0 {
    } else if k == 1 {
    } else if k == 2 {
    } else if k == 3 {
    } else if k == 4 {
    } else {
    }
}

fn unit_str(k: u64) -> (r: &'static str)
    ensures
        r@ == unit_name(k as nat),
{
    if k == 1 {
        "KB"
    } else if k == 2 {
        "MB"
    } else if k == 3 {
        "GB"
    } else if k == 4 {
        "TB"
    } else if k == 5 {
        "PB"
    } else {
        "EB"
    }
}

fn push_readable_size(out: &mut String, v: u64)
    ensures
        final(out)@ == old(out)@ + readable_size(v as nat),
{
    let mut k: u64 = 0;
    let mut d: u64 = 1;
    proof {
        reveal_with_fuel(pow1024, 1);
    }
    while k < 6 && v / 1024 >= d
        invariant
            k <= 6,
            d as nat == pow1024(k as nat),
            1 <= d,
            k < 6 ==> d <= 1125899906842624,
            d <= 1152921504606846976,
            size_unit_from(v as nat, k as nat) == size_unit(v as nat),
        decreases 6 - k,
    {
        proof {
            assert(v as nat >= pow1024(k as nat + 1)) by (nonlinear_arith)
                requires
                    v as int / 1024 >= d,
                    pow1024(k as nat + 1) == 1024 * d,
            ;
            if k + 1 < 6 {
                lemma_pow1024_small(k as nat + 1);
            }
        }
        d = d * 1024;
        k = k + 1;
    }
    proof {
        if k < 6 {
            assert(!(v as nat >= pow1024(k as nat + 1))) by (nonlinear_arith)
                requires
                    (v as int) / 1024 < d,
                    pow1024(k as nat + 1) == 1024 * d,
            ;
        }
        assert(k as nat == size_unit(v as nat));
    }
    if k == 0 {
        push_decimal(out, v);
        out.append(" B");
    } else {
        let r = v % d;
        assert(r < d);
        proof {
            lemma_multiply_divide_lt(r as int * 10, d as int, 10);
        }
        push_decimal(out, v / d);
        out.append(".");
        out.append(digit_str(r * 10 / d));
        out.append(" ");
        out.append(unit_str(k));
    }
    assert(out@ =~= old(out)@ + readable_size(v as nat));
}

impl RenderConfig {
    /// A config that sets only the width: the usual override for a column.
    pub fn with_width(width: usize) -> (r: RenderConfig)
        ensures
            r@ == (RenderConfigView { title: None, width: Some(width as nat), format: None }),
    {
        RenderConfig { title: None, width: Some(width), format: None }
    }

    /// A copy of this config with the same view.
    pub fn duplicate(&self) -> (r: RenderConfig)
        ensures
            r@ == self@,
    {
        let title = match &self.title {
            Some(t) => Some(t.clone()),
            None => None,
        };
        RenderConfig { title, width: self.width, format: self.format }
    }

    /// This config with `overrides` merged onto it; `self` is left as it is.
    pub fn update(&self, overrides: RenderConfig) -> (r: RenderConfig)
        ensures
            r@ == merge_config(self@, overrides@),
    {
        let title = match overrides.title {
            Some(t) => Some(t),
            None => match &self.title {
                Some(t) => Some(t.clone()),
                None => None,
            },
        };
        let width = match overrides.width {
            Some(w) => Some(w),
            None => self.width,
        };
        let format = match overrides.format {
            Some(f) => Some(f),
            None => self.format,
        };
        RenderConfig { title, width, format }
    }

    /// The title shown for the field.
    pub fn get_title(&self) -> (r: &str)
        ensures
            r@ == title_of(self@),
    {
        match &self.title {
            Some(t) => t.as_str(),
            None => "?",
        }
    }

    /// The text of `value` under this config's format, before any width is applied.
    pub fn format_value(&self, value: Option<u64>) -> (r: String)
        ensures
            r@ == value_text(self@, value),
    {
        let mut out = String::new();
        match value {
            None => out.append("?"),
            Some(v) => match self.format {
                None => push_decimal(&mut out, v),
                Some(RenderFormat::Percent) => {
                    push_decimal(&mut out, v / 10);
                    out.append(".");
                    out.append(digit_str(v % 10));
                    out.append("%");
                },
                Some(RenderFormat::ReadableSize) => push_readable_size(&mut out, v),
                Some(RenderFormat::ReadableSizePerSec) => {
                    push_readable_size(&mut out, v);
                    out.append("/s");
                },
                Some(RenderFormat::CountPerSec) => {
                    push_decimal(&mut out, v);
                    out.append("/s");
                },
            },
        }
        assert(out@ =~= value_text(self@, value));
        out
    }

    /// `value` rendered under this config: its text, set to the configured width if any.
    pub fn render(&self, value: Option<u64>) -> (r: String)
        ensures
            r@ == render_text(self@, value),
            self@.width matches Some(w) ==> r@.len() == w,
    {
        proof {
            if self@.width is Some {
                lemma_render_width(self@, value);
            }
        }
        let text = self.format_value(value);
        match self.width {
            Some(w) => get_fixed_width(text.as_str(), w),
            None => text,
        }
    }
}

} // verus!
