use vstd::prelude::*;

verus! {

/// Which deployment layout a backend entry point was found in.
#[derive(Clone, Copy, Debug, PartialEq, Eq, Structural)]
pub enum LayoutKind {
    /// The installed bundle: `_up_/Backend/src/start.js`.
    Production,
    /// The source tree: `Backend/src/index.js`.
    Development,
}

/// The working directory of a layout, as components below the resource directory.
pub open spec fn base_components(kind: LayoutKind) -> Seq<&'static str> {
    match kind {
        LayoutKind::Production => seq!["_up_", "Backend"],
        LayoutKind::Development => seq!["Backend"],
    }
}

/// The entry point of a layout, as components below the resource directory.
pub open spec fn entry_components(kind: LayoutKind) -> Seq<&'static str> {
    match kind {
        LayoutKind::Production => base_components(kind) + seq!["src", "start.js"],
        LayoutKind::Development => base_components(kind) + seq!["src", "index.js"],
    }
}

/// Components of the directory the backend runs in for `kind`.
pub fn working_dir_of(kind: LayoutKind) -> (r: Vec<&'static str>)
    ensures
        r@ == base_components(kind),
{
    match kind {
        LayoutKind::Production => vec!["_up_", "Backend"],
        LayoutKind::Development => vec!["Backend"],
    }
}

/// Components of the entry point file for `kind`.
pub fn entry_path_of(kind: LayoutKind) -> (r: Vec<&'static str>)
    ensures
        r@ == entry_components(kind),
{
    let mut r = working_dir_of(kind);
    r.push("src");
    match kind {
        LayoutKind::Production => r.push("start.js"),
        LayoutKind::Development => r.push("index.js"),
    }
    proof {
        assert(r@ =~= entry_components(kind));
    }
    r
}

/// Where the backend was found. Both paths follow from the layout, so the
/// layout alone is stored.
#[derive(Clone, Copy, Debug, PartialEq, Eq, Structural)]
pub struct BackendLocation {
    pub kind: LayoutKind,
}

impl BackendLocation {
    /// Components of the entry point below the resource directory.
    pub fn entry_path(&self) -> (r: Vec<&'static str>)
        ensures
            r@ == entry_components(self.kind),
    {
        entry_path_of(self.kind)
    }

    /// Components of the working directory below the resource directory.
    pub fn working_dir(&self) -> (r: Vec<&'static str>)
        ensures
            r@ == base_components(self.kind),
    {
        working_dir_of(self.kind)
    }
}

/// Neither candidate exists. The attempted paths are those of both layouts.
#[derive(Clone, Copy, Debug, PartialEq, Eq, Structural)]
pub struct NotFound {}

impl NotFound {
    /// The entry points that were tried, production first.
    pub fn attempted_paths(&self) -> (r: (Vec<&'static str>, Vec<&'static str>))
        ensures
            r.0@ == entry_components(LayoutKind::Production),
            r.1@ == entry_components(LayoutKind::Development),
    {
        (entry_path_of(LayoutKind::Production), entry_path_of(LayoutKind::Development))
    }
}

/// Where resolution stands: a candidate still to be tested for presence,
/// or the result.
#[derive(Clone, Copy, Debug, PartialEq, Eq, Structural)]
pub enum Resolution {
    Probe(LayoutKind),
    Found(BackendLocation),
    Missing(NotFound),
}

/// What resolution does after the presence test of `probed` gave `exists`.
pub open spec fn next_resolution(probed: LayoutKind, exists: bool) -> Resolution {
    if exists {
        Resolution::Found(BackendLocation { kind: probed })
    } else {
        match probed {
            LayoutKind::Production => Resolution::Probe(LayoutKind::Development),
            LayoutKind::Development => Resolution::Missing(NotFound {  }),
        }
    }
}

/// The outcome of resolution where the production candidate's presence is
/// `production` and the development candidate's is `development`.
pub open spec fn resolve_spec(production: bool, development: bool) -> Result<BackendLocation, NotFound> {
    if production {
        Ok(BackendLocation { kind: LayoutKind::Production })
    } else if development {
        Ok(BackendLocation { kind: LayoutKind::Development })
    } else {
        Err(NotFound {  })
    }
}

/// Resolution starts by testing the production candidate.
pub fn first_probe() -> (r: Resolution)
    ensures
        r == Resolution::Probe(LayoutKind::Production),
{
    Resolution::Probe(LayoutKind::Production)
}

/// Moves resolution on once the presence test of `probed` gave `exists`.
pub fn after_probe(probed: LayoutKind, exists: bool) -> (r: Resolution)
    ensures
        r == next_resolution(probed, exists),
{
    if exists {
        Resolution::Found(BackendLocation { kind: probed })
    } else {
        match probed {
            LayoutKind::Production => Resolution::Probe(LayoutKind::Development),
            LayoutKind::Development => Resolution::Missing(NotFound {  }),
        }
    }
}

/// Resolves from the presence of both candidates. Where the production
/// candidate exists, `development` is not consulted.
pub fn resolve(production: bool, development: bool) -> (r: Result<BackendLocation, NotFound>)
    ensures
        r == resolve_spec(production, development),
{
    match after_probe(LayoutKind::Production, production) {
        Resolution::Found(loc) => Ok(loc),
        _ => match after_probe(LayoutKind::Development, development) {
            Resolution::Found(loc) => Ok(loc),
            _ => Err(NotFound {  }),
        },
    }
}

} // verus!
