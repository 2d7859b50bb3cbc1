//! Profile discovery and random profile selection.

use vstd::prelude::*;

verus! {

/// One entry of a directory listing: a regular file, or a directory together
/// with its own listing.
pub enum Entry {
    File { name: String, path: String },
    Dir { name: String, entries: Vec<Entry> },
}

/// Why the selector could not deliver.
#[derive(Clone, Copy, Debug, PartialEq, Eq, Structural)]
pub enum ConfigError {
    /// The walk ended without a single profile file.
    NoFilesFound,
    /// A profile was asked of an empty set.
    EmptySet,
}

/// The name under which the credentials file is kept. Entries of this name
/// are never offered as profiles.
pub open spec fn credentials_name() -> Seq<char> {
    "auth.txt"@
}

impl Entry {
    /// The last component of the entry's path.
    pub open spec fn name(self) -> Seq<char> {
        match self {
            Entry::File { name, .. } => name@,
            Entry::Dir { name, .. } => name@,
        }
    }

    /// The profile paths that this entry contributes, in walk order.
    pub open spec fn profiles(self) -> Seq<Seq<char>>
        decreases self, 0nat,
    {
        if self.name() == credentials_name() {
            Seq::empty()
        } else {
            match self {
                Entry::File { path, .. } => seq![path@],
                Entry::Dir { entries, .. } => profiles_of(entries@, entries@.len()),
            }
        }
    }
}

/// The profile paths found in the first `n` entries of a listing, depth
/// first: each directory's files stand where the directory stands.
pub open spec fn profiles_of(entries: Seq<Entry>, n: nat) -> Seq<Seq<char>>
    decreases entries, n,
{
    if n == 0 || n > entries.len() {
        Seq::empty()
    } else {
        profiles_of(entries, (n - 1) as nat) + entries[n - 1].profiles()
    }
}

impl Entry {
    /// Whether the walk takes `path` from this entry: from a file that
    /// has the path, or from something in a directory, and never from an
    /// entry that carries the credentials file's name.
    pub open spec fn offers(self, path: Seq<char>) -> bool
        decreases self, 0nat,
    {
        self.name() != credentials_name() && match self {
            Entry::File { path: own, .. } => own@ == path,
            Entry::Dir { entries, .. } => offered_by(entries@, entries@.len(), path),
        }
    }
}

/// Whether the walk takes `path` from one of the first `n` entries of a
/// listing.
pub open spec fn offered_by(entries: Seq<Entry>, n: nat, path: Seq<char>) -> bool
    decreases entries, n,
{
    0 < n <= entries.len() && (offered_by(entries, (n - 1) as nat, path) || entries[n
        - 1].offers(path))
}

/// What two sequences hold together is what one of them holds.
proof fn lemma_contains_concat(a: Seq<Seq<char>>, b: Seq<Seq<char>>, x: Seq<char>)
    ensures
        (a + b).contains(x) <==> a.contains(x) || b.contains(x),
{
    if (a + b).contains(x) {
        let i = choose|i: int| 0 <= i < (a + b).len() && (a + b)[i] == x;
        if i < a.len() {
            assert(a[i] == x);
        } else {
            assert(b[i - a.len()] == x);
        }
    }
    if a.contains(x) {
        let i = choose|i: int| 0 <= i < a.len() && a[i] == x;
        assert((a + b)[i] == x);
    }
    if b.contains(x) {
        let j = choose|j: int| 0 <= j < b.len() && b[j] == x;
        assert((a + b)[a.len() + j] == x);
    }
}

/// Discovery finds exactly the files that are not named like the
/// credentials file and lie in no directory named so: a path is among the
/// profiles of an entry if and only if the entry offers it.
pub proof fn lemma_entry_profiles(entry: Entry, path: Seq<char>)
    ensures
        entry.profiles().contains(path) <==> entry.offers(path),
    decreases entry, 0nat,
{
    if entry.name() != credentials_name() {
        match entry {
            Entry::File { path: own, .. } => {
                assert(seq![own@][0] == own@);
            },
            Entry::Dir { entries, .. } => {
                lemma_listing_profiles(entries@, entries@.len(), path);
            },
        }
    }
}

/// The same for a listing: a path is among the profiles found in its
/// first `n` entries if and only if one of them offers it. The
/// credentials file is therefore never among them.
pub proof fn lemma_listing_profiles(entries: Seq<Entry>, n: nat, path: Seq<char>)
    ensures
        profiles_of(entries, n).contains(path) <==> offered_by(entries, n, path),
    decreases entries, n,
{
    if 0 < n <= entries.len() {
        lemma_listing_profiles(entries, (n - 1) as nat, path);
        lemma_entry_profiles(entries[n - 1], path);
        lemma_contains_concat(
            profiles_of(entries, (n - 1) as nat),
            entries[n - 1].profiles(),
            path,
        );
    }
}

/// The set of profile files from which a connection attempt draws, and the
/// place of the credentials file that goes with every one of them.
pub struct File {
    files: Vec<String>,
    auth: String,
    main_dir: String,
}

/// Draws an index below `bound` from the thread's random generator
/// (`rand::rng().random_range(0..bound)`). The generator promises a value
/// inside the range and nothing about which one; it panics on an empty
/// range, which the precondition leaves out.
#[verifier::external_body]
fn random_index(bound: usize) -> (index: usize)
    requires
        bound > 0,
    ensures
        index < bound,
{
    rand::Rng::random_range(&mut rand::rng(), 0..bound)
}

/// Whether an entry name is that of the credentials file.
pub fn is_credentials(name: &String) -> (hit: bool)
    ensures
        hit == (name@ == credentials_name()),
{
    let reserved = String::from_str("auth.txt");
    *name == reserved
}

impl File {
    /// The discovered profile paths, in the order of discovery.
    pub closed spec fn files(&self) -> Seq<Seq<char>> {
        self.files@.map_values(|p: String| p@)
    }

    /// The path of the credentials file.
    pub closed spec fn auth(&self) -> Seq<char> {
        self.auth@
    }

    /// The directory under which profiles are looked for.
    pub closed spec fn main_dir(&self) -> Seq<char> {
        self.main_dir@
    }

    /// A selector for the standard profile directory, with nothing
    /// discovered yet.
    pub fn new() -> (file: File)
        ensures
            file.files() == Seq::<Seq<char>>::empty(),
            file.main_dir() == "/home/kwunch/VPN"@,
            file.auth() == "/home/kwunch/VPN/auth.txt"@,
    {
        let main_dir = String::from_str("/home/kwunch/VPN");
        let auth = String::from_str("/home/kwunch/VPN/auth.txt");
        let file = File { files: Vec::new(), auth, main_dir };
        assert(file.files() =~= Seq::<Seq<char>>::empty());
        file
    }

    /// Discovers the profiles in the listing of the profile directory.
    /// Fails when the walk leaves the set empty: without a profile no
    /// connection can ever be made.
    pub fn init(&mut self, listing: &Vec<Entry>) -> (res: Result<(), ConfigError>)
        ensures
            final(self).files() == old(self).files() + profiles_of(listing@, listing@.len()),
            final(self).auth() == old(self).auth(),
            final(self).main_dir() == old(self).main_dir(),
            res == if final(self).files().len() == 0 {
                Err::<(), ConfigError>(ConfigError::NoFilesFound)
            } else {
                Ok::<(), ConfigError>(())
            },
    {
        self.recurse_dir(listing);
        if self.files.len() == 0 {
            Err(ConfigError::NoFilesFound)
        } else {
            Ok(())
        }
    }

    /// The path of the credentials file.
    pub fn get_auth(&self) -> (auth: &String)
        ensures
            auth@ == self.auth(),
    {
        &self.auth
    }

    /// The directory whose listing `init` expects.
    pub fn get_main_dir(&self) -> (dir: &String)
        ensures
            dir@ == self.main_dir(),
    {
        &self.main_dir
    }

    /// The profile at a given position of the discovered set.
    pub fn file_at(&self, index: usize) -> (path: String)
        requires
            index < self.files().len(),
        ensures
            path@ == self.files()[index as int],
    {
        self.files[index].clone()
    }

    /// A profile drawn at random from the discovered set. Which one is up to
    /// the generator; it is always one of the set, and the draw fails only
    /// on an empty set.
    pub fn get_random_file_path(&self) -> (res: Result<String, ConfigError>)
        ensures
            match res {
                Ok(path) => self.files().contains(path@),
                Err(e) => e == ConfigError::EmptySet && self.files().len() == 0,
            },
    {
        let count = self.files.len();
        if count == 0 {
            return Err(ConfigError::EmptySet);
        }
        let index = random_index(count);
        Ok(self.file_at(index))
    }

    /// Walks a listing depth first and adds every regular file to the set,
    /// passing over whatever carries the credentials file's name.
    pub fn recurse_dir(&mut self, entries: &Vec<Entry>)
        ensures
            final(self).files() == old(self).files() + profiles_of(entries@, entries@.len()),
            final(self).auth() == old(self).auth(),
            final(self).main_dir() == old(self).main_dir(),
        decreases entries,
    {
        let mut i: usize = 0;
        while i < entries.len()
            invariant
                i <= entries.len(),
                self.files() == old(self).files() + profiles_of(entries@, i as nat),
                self.auth() == old(self).auth(),
                self.main_dir() == old(self).main_dir(),
            decreases entries.len() - i,
        {
            let ghost before = self.files();
            match &entries[i] {
                Entry::File { name, path } => {
                    if !is_credentials(name) {
                        self.files.push(path.clone());
                    }
                },
                Entry::Dir { name, entries: children } => {
                    if !is_credentials(name) {
                        self.recurse_dir(children);
                    }
                },
            }
            assert(self.files() =~= before + entries@[i as int].profiles());
            i += 1;
        }
    }

    /// Read access to the discovered set.
    pub fn lock_file(&self) -> (res: Result<&Vec<String>, ConfigError>)
        ensures
            res matches Ok(files) && files@.map_values(|p: String| p@) == self.files(),
    {
        Ok(&self.files)
    }

    /// How many profiles were discovered.
    pub fn file_count(&self) -> (count: usize)
        ensures
            count == self.files().len(),
    {
        self.files.len()
    }
}

} // verus!
