//! The middleware's configuration, and the service it wraps around a handler.

use vstd::prelude::*;
use crate::format::str_opt_view;
use crate::session::{ServerTiming, TimingRecord};

verus! {

/// Configuration of the timing middleware: the application's label and an
/// optional description, shared by every request it handles.
#[derive(Debug, Clone, Copy)]
pub struct ServerTimingLayer<'a> {
    pub app: &'a str,
    pub description: Option<&'a str>,
}

impl<'a> ServerTimingLayer<'a> {
    /// A layer for the application `app`, without a description.
    pub fn new(app: &'a str) -> (r: Self)
        ensures
            r.app@ == app@,
            r.description is None,
    {
        ServerTimingLayer { app, description: None }
    }

    /// A copy of this layer that carries `description`; this layer itself is
    /// left as it was.
    pub fn with_description(&mut self, description: &'a str) -> (r: Self)
        ensures
            r.app@ == old(self).app@,
            r.description matches Some(d) && d@ == description@,
            final(self).app@ == old(self).app@,
            str_opt_view(final(self).description) == str_opt_view(old(self).description),
    {
        ServerTimingLayer { app: self.app, description: Some(description) }
    }

    /// Wraps `service`, which handles the requests, with this layer's
    /// configuration.
    pub fn layer<S>(&self, service: S) -> (r: ServerTimingService<'a, S>)
        ensures
            r.service == service,
            r.app@ == self.app@,
            str_opt_view(r.description) == str_opt_view(self.description),
    {
        ServerTimingService { service, app: self.app, description: self.description }
    }
}

/// A handler wrapped by the timing middleware.
#[derive(Clone)]
pub struct ServerTimingService<'a, S> {
    pub service: S,
    pub app: &'a str,
    pub description: Option<&'a str>,
}

impl<'a, S> ServerTimingService<'a, S> {
    /// The timing session of a new request: it starts now, carries the
    /// layer's label and description, and holds no measurement, whatever
    /// other requests have recorded.
    pub fn start(&self) -> (r: ServerTiming)
        ensures
            r@.app == self.app@,
            r@.description == str_opt_view(self.description),
            r@.mark == 0,
            r@.records == Seq::<TimingRecord>::empty(),
    {
        ServerTiming::new(self.app, self.description)
    }
}

} // verus!
