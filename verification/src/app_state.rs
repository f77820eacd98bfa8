//! What the server is started with.

use vstd::prelude::*;

verus! {

/// What the server is started with: the directory that holds the site, the
/// options of the markdown parser as a bit pattern, and the port to listen
/// on.
#[derive(Clone, Debug)]
pub struct AppState {
    pub root: String,
    pub md_options: u32,
    pub port: u16,
}

impl AppState {
    /// A builder that has been told nothing yet.
    pub fn builder() -> (builder: AppStateBuilder<NoRoot, NoPort>)
        ensures
            builder.md_options is None,
    {
        AppStateBuilder::new()
    }
}

/// Collects what an `AppState` is made of. The state can be built once the
/// root and the port have been given, in either order.
pub struct AppStateBuilder<R, P> {
    pub root: R,
    pub md_options: Option<u32>,
    pub port: P,
}

impl AppStateBuilder<NoRoot, NoPort> {
    /// A builder that has been told nothing yet.
    pub fn new() -> (builder: Self)
        ensures
            builder.md_options is None,
    {
        AppStateBuilder { root: NoRoot, md_options: None, port: NoPort }
    }
}

impl<P> AppStateBuilder<NoRoot, P> {
    /// Tells the builder the directory that holds the site.
    pub fn root(self, root: &str) -> (builder: AppStateBuilder<Root, P>)
        ensures
            builder.root.0@ == root@,
            builder.md_options == self.md_options,
            builder.port == self.port,
    {
        AppStateBuilder { root: Root(root.to_owned()), md_options: self.md_options, port: self.port }
    }
}

impl AppStateBuilder<Root, Port> {
    /// The state that the builder has been told of. Where it has been told no
    /// parser options, none are switched on.
    pub fn build(self) -> (state: AppState)
        ensures
            state.root@ == self.root.0@,
            state.port == self.port.0,
            state.md_options == match self.md_options {
                Some(options) => options,
                None => 0,
            },
    {
        AppState {
            root: self.root.0,
            md_options: match self.md_options {
                Some(options) => options,
                None => 0,
            },
            port: self.port.0,
        }
    }
}

impl<R> AppStateBuilder<R, NoPort> {
    /// Tells the builder the port to listen on.
    pub fn port(self, port: u16) -> (builder: AppStateBuilder<R, Port>)
        ensures
            builder.port.0 == port,
            builder.md_options == self.md_options,
            builder.root == self.root,
    {
        AppStateBuilder { root: self.root, md_options: self.md_options, port: Port(port) }
    }
}

impl<R, P> AppStateBuilder<R, P> {
    /// Tells the builder the options of the markdown parser, as a bit
    /// pattern.
    pub fn md_options(self, md_options: u32) -> (builder: Self)
        ensures
            builder.md_options == Some(md_options),
            builder.root == self.root,
            builder.port == self.port,
    {
        AppStateBuilder { root: self.root, md_options: Some(md_options), port: self.port }
    }
}

/// Marks a builder that has not been told the root.
#[derive(Clone, Copy, Debug)]
pub struct NoRoot;

/// The root that a builder has been told.
#[derive(Clone, Debug)]
pub struct Root(pub String);

/// Marks a builder that has not been told the port.
#[derive(Clone, Copy, Debug)]
pub struct NoPort;

/// The port that a builder has been told.
#[derive(Clone, Copy, Debug)]
pub struct Port(pub u16);

} // verus!
