//! The application catalog.
//!
//! An [`AppManifest`] is the static lookup from application identifier to
//! its launch descriptor: sandbox kind, executable path, and optional
//! storage parameters. The manager only reads it.

use vstd::prelude::*;

verus! {

/// The isolation strategy for a launched application.
#[derive(Clone, Copy, PartialEq, Eq, Debug, Structural)]
pub enum SandboxType {
    /// Development mode: run the executable with no additional isolation.
    DeveloperEnvironment,
    /// Run the executable inside a fresh isolated context.
    Container,
    /// Defined by the protocol but intentionally unsupported.
    VirtualMachine,
}

/// The scope under which an application's records are persisted.
#[derive(Clone, Copy, PartialEq, Eq, Debug, Structural)]
pub enum Scope {
    System,
    Session,
}

/// Mathematical model of [`StorageParameters`].
pub ghost struct StorageParametersView {
    pub scope: Scope,
    pub domain: Seq<char>,
    pub encryption_key_version: Option<usize>,
}

/// Per-application storage configuration. An application whose descriptor
/// carries none is not entitled to use the storage proxy at all.
#[derive(Debug)]
pub struct StorageParameters {
    pub scope: Scope,
    pub domain: String,
    pub encryption_key_version: Option<usize>,
}

impl View for StorageParameters {
    type V = StorageParametersView;

    open spec fn view(&self) -> StorageParametersView {
        StorageParametersView {
            scope: self.scope,
            domain: self.domain@,
            encryption_key_version: self.encryption_key_version,
        }
    }
}

impl Clone for StorageParameters {
    fn clone(&self) -> (r: Self)
        ensures
            r@ == self@,
    {
        StorageParameters {
            scope: self.scope,
            domain: self.domain.clone(),
            encryption_key_version: self.encryption_key_version,
        }
    }
}

/// Mathematical model of [`AppManifestEntry`].
pub ghost struct AppManifestEntryView {
    pub app_name: Seq<char>,
    pub sandbox_type: SandboxType,
    pub path: Seq<char>,
    pub storage_parameters: Option<StorageParametersView>,
}

/// The launch descriptor of one application.
#[derive(Debug)]
pub struct AppManifestEntry {
    pub app_name: String,
    pub sandbox_type: SandboxType,
    pub path: String,
    pub storage_parameters: Option<StorageParameters>,
}

impl View for AppManifestEntry {
    type V = AppManifestEntryView;

    open spec fn view(&self) -> AppManifestEntryView {
        AppManifestEntryView {
            app_name: self.app_name@,
            sandbox_type: self.sandbox_type,
            path: self.path@,
            storage_parameters: match self.storage_parameters {
                Some(p) => Some(p@),
                None => None,
            },
        }
    }
}

impl Clone for AppManifestEntry {
    fn clone(&self) -> (r: Self)
        ensures
            r@ == self@,
    {
        AppManifestEntry {
            app_name: self.app_name.clone(),
            sandbox_type: self.sandbox_type,
            path: self.path.clone(),
            storage_parameters: match &self.storage_parameters {
                Some(p) => Some(p.clone()),
                None => None,
            },
        }
    }
}

/// The first entry of `entries` whose name is `id`, if any.
pub open spec fn spec_lookup(entries: Seq<AppManifestEntryView>, id: Seq<char>) -> Option<
    AppManifestEntryView,
>
    decreases entries.len(),
{
    if entries.len() == 0 {
        None
    } else if entries[0].app_name == id {
        Some(entries[0])
    } else {
        spec_lookup(entries.drop_first(), id)
    }
}

/// The static catalog of launchable applications.
pub struct AppManifest {
    pub entries: Vec<AppManifestEntry>,
}

impl View for AppManifest {
    type V = Seq<AppManifestEntryView>;

    open spec fn view(&self) -> Seq<AppManifestEntryView> {
        Seq::new(self.entries@.len(), |i: int| self.entries@[i]@)
    }
}

impl AppManifest {
    /// An empty catalog.
    pub fn new() -> (r: AppManifest)
        ensures
            r@ === Seq::<AppManifestEntryView>::empty(),
    {
        let r = AppManifest { entries: Vec::new() };
        proof {
            assert(r@ =~= Seq::<AppManifestEntryView>::empty());
        }
        r
    }

    /// Add one descriptor to the catalog.
    pub fn add_entry(&mut self, entry: AppManifestEntry)
        ensures
            final(self)@ == old(self)@.push(entry@),
    {
        let ghost before = self@;
        self.entries.push(entry);
        proof {
            assert(self@ =~= before.push(self.entries@.last()@));
        }
    }

    /// Look the identifier up, yielding the first descriptor of that name,
    /// or the catalog error when there is none.
    pub fn get_app_manifest_entry(&self, id: &String) -> (r: Result<
        &AppManifestEntry,
        crate::Error,
    >)
        ensures
            match r {
                Ok(entry) => spec_lookup(self@, id@) == Some(entry@),
                Err(e) => spec_lookup(self@, id@) is None && (e matches crate::Error::AppManifest(
                    missing,
                ) && missing@ == id@),
            },
    {
        let n = self.entries.len();
        proof {
            assert(self@.skip(0) =~= self@);
        }
        for i in 0..n
            invariant
                n == self.entries.len(),
                spec_lookup(self@, id@) == spec_lookup(self@.skip(i as int), id@),
        {
            proof {
                assert(self@.skip(i as int)[0] == self.entries@[i as int]@);
            }
            if self.entries[i].app_name.eq(id) {
                return Ok(&self.entries[i]);
            }
            proof {
                assert(self@.skip(i as int).drop_first() =~= self@.skip(i + 1));
            }
        }
        proof {
            assert(self@.skip(n as int) =~= Seq::<AppManifestEntryView>::empty());
        }
        Err(crate::Error::AppManifest(id.clone()))
    }
}

} // verus!
