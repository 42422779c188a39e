//! Diagnostic events: where an event came from, when it was active, the
//! template that describes it, and its properties.

use vstd::prelude::*;
use crate::extent::{Extent, ExtentView};
use crate::path::Path;
use crate::by_ref::ByRef;
use crate::template::{PartView, Render, Template};

verus! {

/// A diagnostic event.
pub struct Event<'a, P> {
    module: Path<'a>,
    extent: Option<Extent>,
    tpl: Template<'a>,
    props: P,
}

impl<'a, P> Event<'a, P> {
    /// The module the event came from.
    pub closed spec fn spec_module(&self) -> Seq<char> {
        self.module@
    }

    /// The time the event was active, if it has one.
    pub closed spec fn spec_extent(&self) -> Option<ExtentView> {
        match self.extent {
            Some(e) => Some(e@),
            None => None,
        }
    }

    /// The template of the event.
    pub closed spec fn spec_tpl(&self) -> Seq<PartView> {
        self.tpl@
    }

    /// The properties of the event.
    pub closed spec fn spec_props(&self) -> P {
        self.props
    }

    /// Create an event.
    pub fn new(module: Path<'a>, extent: Option<Extent>, tpl: Template<'a>, props: P) -> (r: Self)
        ensures
            r.spec_module() == module@,
            r.spec_extent() == (match extent {
                Some(e) => Some(e@),
                None => None::<ExtentView>,
            }),
            r.spec_tpl() == tpl@,
            r.spec_props() == props,
    {
        Event { module, extent, tpl, props }
    }

    /// The template of the event.
    pub fn tpl(&self) -> (r: &Template<'a>)
        ensures
            r@ == self.spec_tpl(),
    {
        &self.tpl
    }

    /// The message of the event: its template rendered with its properties.
    pub fn msg(&self) -> (r: Render<'_, &P>)
        ensures
            r.spec_template() == self.spec_tpl(),
            *r.spec_props() == self.spec_props(),
    {
        self.tpl.render(&self.props)
    }

    /// The module the event came from.
    pub fn module(&self) -> (r: &Path<'a>)
        ensures
            r@ == self.spec_module(),
    {
        &self.module
    }

    /// The time the event was active, if it has one.
    pub fn extent(&self) -> (r: Option<&Extent>)
        ensures
            match r {
                Some(e) => self.spec_extent() == Some(e@),
                None => self.spec_extent() is None,
            },
    {
        match &self.extent {
            Some(e) => Some(e),
            None => None,
        }
    }

    /// The properties of the event.
    pub fn props(&self) -> (r: &P)
        ensures
            *r == self.spec_props(),
    {
        &self.props
    }

    /// Borrow the event: the same module, time and properties, by reference.
    pub fn by_ref<'b>(&'b self) -> (r: Event<'b, ByRef<'b, P>>)
        ensures
            r.spec_module() == self.spec_module(),
            r.spec_extent() == self.spec_extent(),
            r.spec_tpl() == self.spec_tpl(),
            *r.spec_props().spec_inner() == self.spec_props(),
    {
        let extent = match &self.extent {
            Some(e) => Some(e.clone()),
            None => None,
        };
        Event { module: self.module.by_ref(), extent, tpl: self.tpl.by_ref(), props: ByRef::new(&self.props) }
    }

    /// The event with its properties mapped by `f`.
    pub fn map_props<U, F: FnOnce(P) -> U>(self, f: F) -> (r: Event<'a, U>)
        requires
            f.requires((self.spec_props(),)),
        ensures
            r.spec_module() == self.spec_module(),
            r.spec_extent() == self.spec_extent(),
            r.spec_tpl() == self.spec_tpl(),
            f.ensures((self.spec_props(),), r.spec_props()),
    {
        Event { module: self.module, extent: self.extent, tpl: self.tpl, props: f(self.props) }
    }

    /// The event with its time replaced.
    pub fn with_extent(self, extent: Option<Extent>) -> (r: Self)
        ensures
            r.spec_module() == self.spec_module(),
            r.spec_extent() == (match extent {
                Some(e) => Some(e@),
                None => None::<ExtentView>,
            }),
            r.spec_tpl() == self.spec_tpl(),
            r.spec_props() == self.spec_props(),
    {
        Event { module: self.module, extent, tpl: self.tpl, props: self.props }
    }
}

} // verus!
