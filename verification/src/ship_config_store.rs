use vstd::prelude::*;

verus! {

/// Keeps the default ship configuration and the path of the file it is
/// saved to. The configuration itself is any value `C`; reading and writing
/// the file are left to the caller.
pub struct ShipConfigStore<C> {
    path: String,
    default_ship: C,
}

impl<C> ShipConfigStore<C> {
    /// The path of the configuration file.
    pub closed spec fn path_view(&self) -> Seq<char> {
        self.path@
    }

    /// The default ship configuration.
    pub closed spec fn config(&self) -> C {
        self.default_ship
    }

    /// This store with its default configuration replaced by `config`.
    pub closed spec fn with_default(self, config: C) -> Self {
        ShipConfigStore { path: self.path, default_ship: config }
    }

    /// Builds the store for the file at `path`: the configuration that was
    /// read from it when there is one, `fallback` otherwise.
    pub fn load_default(path: &str, loaded: Option<C>, fallback: C) -> (s: Self)
        ensures
            s.path_view() == path@,
            s.config() == match loaded {
                Some(c) => c,
                None => fallback,
            },
    {
        let default_ship = match loaded {
            Some(c) => c,
            None => fallback,
        };
        ShipConfigStore { path: path.to_owned(), default_ship }
    }

    /// The default ship configuration.
    pub fn get_default(&self) -> (c: &C)
        ensures
            *c == self.config(),
    {
        &self.default_ship
    }

    /// Replaces the default ship configuration; the path stays.
    pub fn set_default(&mut self, config: C)
        ensures
            *final(self) == old(self).with_default(config),
    {
        self.default_ship = config;
    }

    /// The path of the configuration file.
    pub fn path(&self) -> (p: &str)
        ensures
            p@ == self.path_view(),
    {
        self.path.as_str()
    }
}

impl<C> ShipConfigStore<C> {
    /// What is read back after a write is what was written, writing the
    /// configuration never moves the file, and of two writes the later wins.
    pub proof fn law_get_after_set(self, first: C, second: C)
        ensures
            self.with_default(first).config() == first,
            self.with_default(first).path_view() == self.path_view(),
            self.with_default(first).with_default(second) == self.with_default(second),
    {
    }
}

} // verus!
