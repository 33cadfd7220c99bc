//! The store-management pane's state: the profile being edited, which
//! stored profile is selected, and the selector-suggestion controls.
//! Applying a suggested pattern to the edited profile dispatches on a
//! closed set of field names.

use vstd::prelude::*;
use crate::selectors::FieldKind;
use crate::selectors::SelectorHelper;
use crate::store::StoreConfig;
use crate::store::applied_config;
use crate::text::str_eq;

verus! {

/// The selector field that the editing pane's `selector_type` names,
/// matched exactly: one of `container`, `title`, `price`, `image`,
/// `link`, `description`.
pub open spec fn selector_slot_of(s: Seq<char>) -> Option<FieldKind> {
    if s == "container"@ {
        Some(FieldKind::Container)
    } else if s == "title"@ {
        Some(FieldKind::Title)
    } else if s == "price"@ {
        Some(FieldKind::Price)
    } else if s == "image"@ {
        Some(FieldKind::Image)
    } else if s == "link"@ {
        Some(FieldKind::Link)
    } else if s == "description"@ {
        Some(FieldKind::Description)
    } else {
        None
    }
}

/// The selector field named by `s`, matched exactly.
pub fn selector_slot_from(s: &str) -> (r: Option<FieldKind>)
    ensures
        r == selector_slot_of(s@),
{
    if str_eq(s, "container") {
        Some(FieldKind::Container)
    } else if str_eq(s, "title") {
        Some(FieldKind::Title)
    } else if str_eq(s, "price") {
        Some(FieldKind::Price)
    } else if str_eq(s, "image") {
        Some(FieldKind::Image)
    } else if str_eq(s, "link") {
        Some(FieldKind::Link)
    } else if str_eq(s, "description") {
        Some(FieldKind::Description)
    } else {
        None
    }
}

/// The store-management pane's state.
#[derive(Debug)]
pub struct StoreTab {
    pub new_store: StoreConfig,
    pub selected_store: Option<usize>,
    pub editing: bool,
    pub selector_helper: SelectorHelper,
    pub test_url: String,
    pub selector_type: String,
    pub show_suggestions: bool,
}

impl StoreTab {
    /// A fresh pane: an empty profile under edit, nothing selected, and
    /// suggestions aimed at the container field.
    pub fn new() -> (r: Self)
        ensures
            r.new_store.name@ == Seq::<char>::empty(),
            r.new_store.base_url@ == Seq::<char>::empty(),
            r.new_store.search_url_pattern@ == "{base_url}/search?q={query}"@,
            r.new_store.product_container_selector@ == Seq::<char>::empty(),
            r.new_store.name_selector@ == Seq::<char>::empty(),
            r.new_store.price_selector@ == Seq::<char>::empty(),
            r.new_store.image_selector@ == Seq::<char>::empty(),
            r.new_store.link_selector@ == Seq::<char>::empty(),
            r.new_store.description_selector is None,
            r.new_store.enabled,
            r.selected_store is None,
            !r.editing,
            r.test_url@ == Seq::<char>::empty(),
            r.selector_type@ == "container"@,
            !r.show_suggestions,
    {
        Self {
            new_store: StoreConfig::default(),
            selected_store: None,
            editing: false,
            selector_helper: SelectorHelper::new(),
            test_url: String::new(),
            selector_type: "container".to_owned(),
            show_suggestions: false,
        }
    }

    /// Applies a suggested selector pattern to the profile under edit:
    /// the pane's `selector_type` names the field to write, and an
    /// unknown name leaves the profile untouched.
    pub fn apply_suggestion(&mut self, suggestion: String)
        ensures
            final(self).new_store == (match selector_slot_of(old(self).selector_type@) {
                Some(kind) => applied_config(old(self).new_store, kind, suggestion),
                None => old(self).new_store,
            }),
            final(self).selected_store == old(self).selected_store,
            final(self).editing == old(self).editing,
            final(self).test_url == old(self).test_url,
            final(self).selector_type == old(self).selector_type,
            final(self).show_suggestions == old(self).show_suggestions,
    {
        match selector_slot_from(self.selector_type.as_str()) {
            Some(kind) => {
                self.new_store.set_selector(kind, suggestion);
            },
            None => {},
        }
    }
}

} // verus!
