//! The persisted record types: widgets, profiles and dependencies.
//!
//! All three kinds are kept in keyed stores (see `store`), so each carries a
//! stable string id and implements [`Record`].
use vstd::prelude::*;

verus! {

/// A persisted widget definition: identity, display name, the three content
/// fields embedded verbatim into the rendered document, window geometry,
/// opacity (0 to 100, the renderer divides by 100), and behaviour flags.
pub struct Widget {
    pub id: String,
    pub name: String,
    pub html: String,
    pub css: String,
    pub js: String,
    pub width: u32,
    pub height: u32,
    pub opacity: u8,
    pub always_on_top: bool,
    pub transparent: bool,
    pub x: i32,
    pub y: i32,
    pub auto_start: bool,
    pub locked: bool,
}

impl Widget {
    /// A widget is well formed when its opacity lies in the documented
    /// 0 to 100 range, so that dividing by 100 yields an alpha in 0.0 to 1.0.
    pub open spec fn wf(&self) -> bool {
        self.opacity <= 100
    }
}

impl Clone for Widget {
    fn clone(&self) -> (r: Self)
        ensures
            r == *self,
    {
        Widget {
            id: self.id.clone(),
            name: self.name.clone(),
            html: self.html.clone(),
            css: self.css.clone(),
            js: self.js.clone(),
            width: self.width,
            height: self.height,
            opacity: self.opacity,
            always_on_top: self.always_on_top,
            transparent: self.transparent,
            x: self.x,
            y: self.y,
            auto_start: self.auto_start,
            locked: self.locked,
        }
    }
}

/// Metadata for an external script or style asset a widget may rely on.
/// `cached` records whether the asset was fetched locally; nothing in this
/// core performs the fetch.
pub struct Dependency {
    pub id: String,
    pub url: String,
    pub name: String,
    pub cached: bool,
    pub added_at: String,
}

impl Clone for Dependency {
    fn clone(&self) -> (r: Self)
        ensures
            r == *self,
    {
        Dependency {
            id: self.id.clone(),
            url: self.url.clone(),
            name: self.name.clone(),
            cached: self.cached,
            added_at: self.added_at.clone(),
        }
    }
}

/// A named, complete snapshot of widgets and dependencies, swappable as a
/// unit: applying a profile overwrites the current widget and dependency
/// stores entirely.
pub struct Profile {
    pub id: String,
    pub name: String,
    pub widgets: Vec<Widget>,
    pub dependencies: Vec<Dependency>,
    pub created_at: String,
}

/// A record that a keyed store can hold: it exposes a stable string key.
pub trait Record: Sized {
    /// The record's key, as the store's contracts speak of it.
    spec fn key(&self) -> Seq<char>;

    /// The key as a value, for the store's own lookups.
    fn record_id(&self) -> (r: &String)
        ensures
            r@ == self.key(),
    ;
}

impl Record for Widget {
    open spec fn key(&self) -> Seq<char> {
        self.id@
    }

    fn record_id(&self) -> (r: &String) {
        &self.id
    }
}

impl Record for Dependency {
    open spec fn key(&self) -> Seq<char> {
        self.id@
    }

    fn record_id(&self) -> (r: &String) {
        &self.id
    }
}

impl Record for Profile {
    open spec fn key(&self) -> Seq<char> {
        self.id@
    }

    fn record_id(&self) -> (r: &String) {
        &self.id
    }
}

} // verus!
