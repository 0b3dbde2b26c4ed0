use vstd::prelude::*;

use crate::render_config::{merge_config, render_text, RenderConfig, RenderConfigView};

verus! {

/// A field identifier that knows the default display metadata of its field.
pub trait HasRenderConfig: Sized {
    spec fn spec_default_config(&self) -> RenderConfigView;

    fn get_render_config(&self) -> (r: RenderConfig)
        ensures
            r@ == self.spec_default_config(),
    ;
}

/// A metric model whose fields can be looked up by identifier.
pub trait Queriable {
    type FieldId: HasRenderConfig + Copy;

    /// The current value of a field; `None` where the model has no value for it.
    spec fn spec_query(&self, field_id: Self::FieldId) -> Option<u64>;

    fn query(&self, field_id: &Self::FieldId) -> (r: Option<u64>)
        ensures
            r == self.spec_query(*field_id),
    ;
}

/// A field identifier bound to the config it is rendered with.
#[derive(Debug)]
pub struct ViewItem<F> {
    pub field_id: F,
    pub config: RenderConfig,
}

/// The text that `item` renders to against `model`.
pub open spec fn spec_render<T: Queriable>(
    field_id: T::FieldId,
    config: RenderConfigView,
    model: T,
) -> Seq<char> {
    render_text(config, model.spec_query(field_id))
}

impl<F: HasRenderConfig + Copy> ViewItem<F> {
    /// The item for `field_id` with that field's default config.
    pub fn from_default(field_id: F) -> (r: Self)
        ensures
            r.field_id == field_id,
            r.config@ == field_id.spec_default_config(),
    {
        ViewItem { field_id, config: field_id.get_render_config() }
    }

    /// A new item with `overrides` merged onto this item's config; this item is left as it is.
    pub fn update(&self, overrides: RenderConfig) -> (r: Self)
        ensures
            r.field_id == self.field_id,
            r.config@ == merge_config(self.config@, overrides@),
    {
        ViewItem { field_id: self.field_id, config: self.config.update(overrides) }
    }

    /// A copy of this item.
    pub fn duplicate(&self) -> (r: Self)
        ensures
            r.field_id == self.field_id,
            r.config@ == self.config@,
    {
        ViewItem { field_id: self.field_id, config: self.config.duplicate() }
    }

    /// Renders this item's field of `model` under this item's config.
    pub fn render<T: Queriable<FieldId = F>>(&self, model: &T) -> (r: String)
        ensures
            r@ == spec_render::<T>(self.field_id, self.config@, *model),
            self.config@.width matches Some(w) ==> r@.len() == w,
    {
        let value = model.query(&self.field_id);
        self.config.render(value)
    }
}

/// An updated item renders under its config merged with the override, and an override
/// that sets nothing renders exactly as the original. (`update` reads the original
/// through `&self`, so the original renders afterwards as it did before.)
pub proof fn lemma_update_renders_merged<T: Queriable>(
    field_id: T::FieldId,
    config: RenderConfigView,
    overrides: RenderConfigView,
    model: T,
)
    ensures
        spec_render::<T>(field_id, merge_config(config, overrides), model) == render_text(
            merge_config(config, overrides),
            model.spec_query(field_id),
        ),
        overrides.title is None && overrides.width is None && overrides.format is None
            ==> spec_render::<T>(field_id, merge_config(config, overrides), model)
            == spec_render::<T>(field_id, config, model),
{
}

} // verus!
