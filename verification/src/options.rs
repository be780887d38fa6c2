//! The exporter's configuration of restic repositories.
use std::path::PathBuf;
use std::time::Duration;

use vstd::prelude::*;

use crate::backend::{backend_type_named, parse_backend_type, BackendType};
use crate::option_table::OptionTable;

verus! {

/// Declares `std::path::PathBuf` to Verus as an opaque type; the cache
/// directory is only carried through.
#[verifier::external_type_specification]
#[verifier::external_body]
pub struct ExPathBuf(PathBuf);

/// The `restic` table of the configuration.
pub struct ResticOptions {
    /// Cache directory for repository metadata; without it the cache is off.
    pub cache_dir: Option<PathBuf>,
    /// Settings shared by all repositories.
    pub defaults: Option<ResticDefaultOptions>,
    /// The repositories to collect metrics from.
    pub repositories: Vec<RepositoryOptions>,
}

/// Defaults that a repository's own settings override.
pub struct ResticDefaultOptions {
    /// The password of every repository that gives none itself.
    pub password: Option<String>,
    /// Backend options by backend name (`local`, `rest`): each name with its
    /// table of options.
    pub backend_options: Option<Vec<(String, OptionTable)>>,
}

/// One repository to collect metrics from.
pub struct RepositoryOptions {
    /// The repository's name; it becomes the `repository_name` label.
    pub name: String,
    /// The repository location, with the backend name and a `:` in front
    /// except for a local path.
    pub url: String,
    /// The repository's password, which wins over the default one.
    pub password: Option<String>,
    /// Whether to initialise the repository before the first collection.
    pub initialise: bool,
    /// Backend options that win over the defaults for the same backend.
    pub backend_options: Option<OptionTable>,
}

/// The `collector` table of the configuration.
pub struct CollectorOptions {
    /// The time between two collections.
    pub interval: Duration,
}

/// The index of the first entry whose name names `backend`.
pub open spec fn first_entry_for(entries: Seq<(String, OptionTable)>, backend: BackendType) -> Option<
    int,
>
    decreases entries.len(),
{
    if entries.len() == 0 {
        None
    } else if backend_type_named(entries[0].0@) == Some(backend) {
        Some(0)
    } else {
        match first_entry_for(entries.drop_first(), backend) {
            Some(i) => Some(i + 1),
            None => None,
        }
    }
}

/// `first_entry_for` is the least index whose name names the backend.
pub proof fn lemma_first_entry_for(entries: Seq<(String, OptionTable)>, backend: BackendType, n: int)
    requires
        0 <= n <= entries.len(),
        forall|j: int| 0 <= j < n ==> backend_type_named(#[trigger] entries[j].0@) != Some(backend),
    ensures
        n < entries.len() && backend_type_named(entries[n].0@) == Some(backend) ==> first_entry_for(
            entries,
            backend,
        ) == Some(n),
        n == entries.len() ==> first_entry_for(entries, backend) is None,
    decreases n,
{
    if n > 0 {
        let rest = entries.drop_first();
        assert forall|j: int| 0 <= j < n - 1 implies backend_type_named(#[trigger] rest[j].0@)
            != Some(backend) by {
            assert(rest[j] == entries[j + 1]);
        }
        lemma_first_entry_for(rest, backend, n - 1);
        assert(backend_type_named(entries[0].0@) != Some(backend));
        if n < entries.len() {
            assert(rest[n - 1] == entries[n]);
        }
    }
}

/// `first_entry_for` gives an entry that names the backend, with no earlier
/// entry naming it, or `None` where no entry names it.
pub proof fn lemma_first_entry_names_backend(entries: Seq<(String, OptionTable)>, backend: BackendType)
    ensures
        match first_entry_for(entries, backend) {
            Some(i) => {
                &&& 0 <= i < entries.len()
                &&& backend_type_named(entries[i].0@) == Some(backend)
                &&& forall|j: int|
                    0 <= j < i ==> backend_type_named(#[trigger] entries[j].0@) != Some(backend)
            },
            None => forall|j: int|
                0 <= j < entries.len() ==> backend_type_named(#[trigger] entries[j].0@) != Some(
                    backend,
                ),
        },
    decreases entries.len(),
{
    if entries.len() > 0 {
        let rest = entries.drop_first();
        lemma_first_entry_names_backend(rest, backend);
        if backend_type_named(entries[0].0@) != Some(backend) {
            match first_entry_for(rest, backend) {
                Some(i) => {
                    assert(rest[i] == entries[i + 1]);
                    assert forall|j: int| 0 <= j < i + 1 implies backend_type_named(
                        #[trigger] entries[j].0@,
                    ) != Some(backend) by {
                        if j > 0 {
                            assert(entries[j] == rest[j - 1]);
                        }
                    }
                },
                None => {
                    assert forall|j: int| 0 <= j < entries.len() implies backend_type_named(
                        #[trigger] entries[j].0@,
                    ) != Some(backend) by {
                        if j > 0 {
                            assert(entries[j] == rest[j - 1]);
                        }
                    }
                },
            }
        }
    }
}

/// The default options found for a backend are the table of an entry whose
/// name names exactly that backend, the first such entry; none are found
/// exactly where no entry names the backend. A table meant for one backend is
/// never handed to another.
pub proof fn law_backend_options_belong_to_their_backend(
    defaults: ResticDefaultOptions,
    backend: BackendType,
)
    ensures
        match defaults.options_for(backend) {
            Some(table) => {
                &&& defaults.backend_options is Some
                &&& exists|i: int|
                    0 <= i < defaults.backend_options->0@.len()
                        && backend_type_named(#[trigger] defaults.backend_options->0@[i].0@) == Some(
                        backend,
                    ) && defaults.backend_options->0@[i].1 == table && forall|j: int|
                        0 <= j < i ==> backend_type_named(
                            #[trigger] defaults.backend_options->0@[j].0@,
                        ) != Some(backend)
            },
            None => defaults.backend_options matches Some(entries) ==> forall|i: int|
                0 <= i < entries@.len() ==> backend_type_named(#[trigger] entries@[i].0@) != Some(
                    backend,
                ),
        },
{
    if let Some(entries) = defaults.backend_options {
        lemma_first_entry_names_backend(entries@, backend);
        if let Some(i) = first_entry_for(entries@, backend) {
            assert(backend_type_named(entries@[i].0@) == Some(backend));
        }
    }
}

impl ResticDefaultOptions {
    /// The default backend options for `backend`: the table of the first entry
    /// whose name names it.
    pub open spec fn options_for(&self, backend: BackendType) -> Option<OptionTable> {
        match self.backend_options {
            Some(entries) => match first_entry_for(entries@, backend) {
                Some(i) => Some(entries@[i].1),
                None => None,
            },
            None => None,
        }
    }

    /// The default backend options for `backend`: the table of the first entry
    /// whose name (`local`, `rest`) names that backend, or `None` where no entry
    /// does or there are no backend options.
    pub fn get_options_for_backend(&self, backend: &BackendType) -> (options: Option<&OptionTable>)
        ensures
            match options {
                Some(t) => {
                    &&& self.options_for(*backend) == Some(*t)
                    &&& self.backend_options is Some
                    &&& exists|i: int|
                        0 <= i < self.backend_options->0@.len() && backend_type_named(
                            #[trigger] self.backend_options->0@[i].0@,
                        ) == Some(*backend) && self.backend_options->0@[i].1 == *t
                },
                None => {
                    &&& self.options_for(*backend) is None
                    &&& self.backend_options matches Some(entries) ==> forall|i: int|
                        0 <= i < entries@.len() ==> backend_type_named(#[trigger] entries@[i].0@)
                            != Some(*backend)
                },
            },
    {
        let options_list = match &self.backend_options {
            Some(list) => list,
            None => {
                return None;
            },
        };
        let mut i: usize = 0;
        while i < options_list.len()
            invariant
                self.backend_options == Some(*options_list),
                i <= options_list@.len(),
                forall|j: int|
                    0 <= j < i ==> backend_type_named(#[trigger] options_list@[j].0@) != Some(
                        *backend,
                    ),
            decreases options_list@.len() - i,
        {
            let entry = &options_list[i];
            let named = parse_backend_type(entry.0.as_str());
            if named == Some(*backend) {
                proof {
                    lemma_first_entry_for(options_list@, *backend, i as int);
                }
                return Some(&entry.1);
            }
            i = i + 1;
        }
        proof {
            lemma_first_entry_for(options_list@, *backend, i as int);
        }
        None
    }
}

} // verus!
