use vstd::prelude::*;

verus! {

/// What the trust store reads of a server's public key: the algorithm's name
/// and the key's bytes in their base64 text form.
#[derive(Debug, PartialEq, Eq)]
pub struct HostKey {
    pub key_type: String,
    pub key_base64: String,
}

/// One trusted key, on file for one `(host, port)` pair.
#[derive(Debug, Clone, PartialEq, Eq)]
pub struct KnownHostEntry {
    pub host: String,
    pub port: u16,
    pub key_type: String,
    pub key_base64: String,
    /// When the key was trusted, in seconds since the epoch.
    pub trusted_at: i64,
}

impl Clone for HostKey {
    fn clone(&self) -> (r: Self)
        ensures
            r == *self,
    {
        HostKey { key_type: self.key_type.clone(), key_base64: self.key_base64.clone() }
    }
}

#[derive(Debug, Clone, PartialEq, Eq)]
pub enum KnownHostValidationResult {
    Valid,
    Invalid { key_type: String, key_base64: String },
    Unknown,
}

/// Address of an entry: the host's name and the port.
pub type HostAddress = (Seq<char>, u16);

/// A key as the contracts see it: algorithm name and base64 text.
pub type KeyText = (Seq<char>, Seq<char>);

pub open spec fn address_of(e: KnownHostEntry) -> HostAddress {
    (e.host@, e.port)
}

pub open spec fn key_of(e: KnownHostEntry) -> KeyText {
    (e.key_type@, e.key_base64@)
}

pub open spec fn key_text(k: HostKey) -> KeyText {
    (k.key_type@, k.key_base64@)
}

/// What `validate` answers for a candidate key, given what is on file.
pub open spec fn validation_of(known: Map<HostAddress, KeyText>, at: HostAddress, candidate: KeyText) -> ValidationModel {
    if !known.contains_key(at) {
        ValidationModel::Unknown
    } else if known[at] == candidate {
        ValidationModel::Valid
    } else {
        ValidationModel::Invalid(known[at])
    }
}

/// The outcome of a validation over plain values.
pub ghost enum ValidationModel {
    Valid,
    Invalid(KeyText),
    Unknown,
}

impl KnownHostValidationResult {
    pub open spec fn view(self) -> ValidationModel {
        match self {
            KnownHostValidationResult::Valid => ValidationModel::Valid,
            KnownHostValidationResult::Invalid { key_type, key_base64 } => ValidationModel::Invalid(
                (key_type@, key_base64@),
            ),
            KnownHostValidationResult::Unknown => ValidationModel::Unknown,
        }
    }
}

/// The trust store: for each `(host, port)` at most one trusted key.
pub struct KnownHosts {
    entries: Vec<KnownHostEntry>,
}

impl KnownHosts {
    /// The entries in the order in which their addresses were first trusted.
    pub closed spec fn entries(self) -> Seq<KnownHostEntry> {
        self.entries@
    }

    /// No two entries share an address.
    pub open spec fn wf(self) -> bool {
        forall|i: int, j: int|
            0 <= i < j < self.entries().len() ==> address_of(#[trigger] self.entries()[i])
                != address_of(#[trigger] self.entries()[j])
    }

    pub open spec fn has(self, at: HostAddress) -> bool {
        exists|i: int| 0 <= i < self.entries().len() && address_of(#[trigger] self.entries()[i]) == at
    }

    pub open spec fn index_of(self, at: HostAddress) -> int {
        choose|i: int| 0 <= i < self.entries().len() && address_of(#[trigger] self.entries()[i]) == at
    }

    /// The store as a map from address to trusted key.
    pub open spec fn view(self) -> Map<HostAddress, KeyText> {
        Map::new(|at: HostAddress| self.has(at), |at: HostAddress| key_of(self.entries()[self.index_of(at)]))
    }

    /// Exactly one entry is on file for the address.
    pub open spec fn single_entry(self, at: HostAddress) -> bool {
        &&& self.has(at)
        &&& forall|i: int, j: int|
            0 <= i < self.entries().len() && 0 <= j < self.entries().len() && address_of(
                #[trigger] self.entries()[i],
            ) == at && address_of(#[trigger] self.entries()[j]) == at ==> i == j
    }

    /// What `trust` makes of the store `before`: the address maps to the
    /// key, every other address is as it was, and an entry is added only
    /// where the address had none.
    pub open spec fn is_trust_of(self, before: KnownHosts, at: HostAddress, key: KeyText) -> bool {
        &&& self.wf()
        &&& self@ == before@.insert(at, key)
        &&& self.has(at)
        &&& self.entries().len() == if before@.contains_key(at) {
            before.entries().len()
        } else {
            before.entries().len() + 1
        }
    }

    /// In a well-formed store the entry at position `i` is the one its address maps to.
    pub proof fn lemma_entry_is_mapped(self, i: int)
        requires
            self.wf(),
            0 <= i < self.entries().len(),
        ensures
            self.has(address_of(self.entries()[i])),
            self.index_of(address_of(self.entries()[i])) == i,
            self@.contains_key(address_of(self.entries()[i])),
            self@[address_of(self.entries()[i])] == key_of(self.entries()[i]),
    {
        let at = address_of(self.entries()[i]);
        let j = self.index_of(at);
        assert(0 <= j < self.entries().len() && address_of(self.entries()[j]) == at);
        if j < i {
            assert(address_of(self.entries()[j]) != address_of(self.entries()[i]));
        } else if i < j {
            assert(address_of(self.entries()[i]) != address_of(self.entries()[j]));
        }
    }

    pub fn new() -> (r: Self)
        ensures
            r.wf(),
            r.entries().len() == 0,
            r@ == Map::<HostAddress, KeyText>::empty(),
    {
        let r = KnownHosts { entries: Vec::new() };
        assert(r@ =~= Map::<HostAddress, KeyText>::empty());
        r
    }

    pub fn len(&self) -> (n: usize)
        ensures
            n == self.entries().len(),
    {
        self.entries.len()
    }

    /// Whether no two entries share an address, found by comparing them.
    pub fn is_well_formed(&self) -> (r: bool)
        ensures
            r == self.wf(),
    {
        let mut j: usize = 0;
        while j < self.entries.len()
            invariant
                j <= self.entries().len(),
                forall|a: int, b: int|
                    0 <= a < b < j ==> address_of(#[trigger] self.entries()[a]) != address_of(
                        #[trigger] self.entries()[b],
                    ),
            decreases self.entries().len() - j,
        {
            let mut i: usize = 0;
            while i < j
                invariant
                    i <= j < self.entries().len(),
                    forall|a: int|
                        0 <= a < i ==> address_of(#[trigger] self.entries()[a]) != address_of(
                            self.entries()[j as int],
                        ),
                decreases j - i,
            {
                if self.entries[i].port == self.entries[j].port && self.entries[i].host == self.entries[j].host {
                    proof {
                        assert(address_of(self.entries()[i as int]) == address_of(self.entries()[j as int]));
                    }
                    return false;
                }
                i += 1;
            }
            j += 1;
        }
        true
    }

    /// The entry at position `i`, in the order in which addresses were first trusted.
    pub fn get(&self, i: usize) -> (r: Option<&KnownHostEntry>)
        ensures
            i < self.entries().len() ==> r == Some(&self.entries()[i as int]),
            i >= self.entries().len() ==> r.is_none(),
    {
        if i < self.entries.len() {
            Some(&self.entries[i])
        } else {
            None
        }
    }

    /// Position of the entry for `(host, port)`, if there is one.
    fn find(&self, host: &String, port: u16) -> (r: Option<usize>)
        requires
            self.wf(),
        ensures
            match r {
                Some(i) => i < self.entries().len() && address_of(self.entries()[i as int]) == (
                    host@,
                    port,
                ) && self.has((host@, port)) && self.index_of((host@, port)) == i,
                None => !self.has((host@, port)),
            },
    {
        let mut i: usize = 0;
        while i < self.entries.len()
            invariant
                self.wf(),
                i <= self.entries().len(),
                forall|j: int| 0 <= j < i ==> address_of(#[trigger] self.entries()[j]) != (host@, port),
            decreases self.entries().len() - i,
        {
            if self.entries[i].port == port && self.entries[i].host == *host {
                proof {
                    self.lemma_entry_is_mapped(i as int);
                }
                return Some(i);
            }
            i += 1;
        }
        None
    }

    /// Holds the candidate key against what is on file for `(host, port)`.
    pub fn validate(&self, host: &String, port: u16, key: &HostKey) -> (r: KnownHostValidationResult)
        requires
            self.wf(),
        ensures
            r@ == validation_of(self@, (host@, port), key_text(*key)),
    {
        match self.find(host, port) {
            None => KnownHostValidationResult::Unknown,
            Some(i) => {
                let e = &self.entries[i];
                if e.key_type == key.key_type && e.key_base64 == key.key_base64 {
                    KnownHostValidationResult::Valid
                } else {
                    KnownHostValidationResult::Invalid {
                        key_type: e.key_type.clone(),
                        key_base64: e.key_base64.clone(),
                    }
                }
            },
        }
    }

    /// Records `key` as the trusted key of `(host, port)`, in place of any earlier one.
    pub fn trust(&mut self, host: &String, port: u16, key: &HostKey, now: i64)
        requires
            old(self).wf(),
        ensures
            final(self).is_trust_of(*old(self), (host@, port), key_text(*key)),
            final(self).entries()[final(self).index_of((host@, port))].trusted_at == now,
            forall|i: int|
                0 <= i < old(self).entries().len() && address_of(#[trigger] old(self).entries()[i]) != (host@, port)
                    ==> final(self).entries()[i] == old(self).entries()[i],
    {
        let entry = KnownHostEntry {
            host: host.clone(),
            port,
            key_type: key.key_type.clone(),
            key_base64: key.key_base64.clone(),
            trusted_at: now,
        };
        let ghost before = *self;
        let ghost at = (host@, port);
        match self.find(host, port) {
            Some(i) => {
                self.entries.set(i, entry);
                proof {
                    let after = *self;
                    assert(after.wf());
                    after.lemma_entry_is_mapped(i as int);
                    assert forall|a: HostAddress| after.has(a) <==> (a == at || before.has(a)) by {
                        if after.has(a) {
                            let j = after.index_of(a);
                            if j != i {
                                assert(address_of(before.entries()[j]) == a);
                            }
                        }
                        if before.has(a) {
                            let j = before.index_of(a);
                            assert(address_of(after.entries()[j]) == a);
                        }
                    }
                    assert forall|a: HostAddress| after.has(a) && a != at implies key_of(
                        after.entries()[after.index_of(a)],
                    ) == key_of(before.entries()[before.index_of(a)]) by {
                        let j = after.index_of(a);
                        after.lemma_entry_is_mapped(j);
                        before.lemma_entry_is_mapped(j);
                    }
                    assert(after@ =~= before@.insert(at, key_text(*key)));
                }
            },
            None => {
                self.entries.push(entry);
                proof {
                    let after = *self;
                    let n = before.entries().len() as int;
                    assert(after.wf()) by {
                        assert forall|i: int, j: int| 0 <= i < j < after.entries().len() implies address_of(
                            #[trigger] after.entries()[i],
                        ) != address_of(#[trigger] after.entries()[j]) by {
                            assert(after.entries()[i] == before.entries()[i]);
                            if j < n {
                                assert(after.entries()[j] == before.entries()[j]);
                            }
                        }
                    }
                    after.lemma_entry_is_mapped(n);
                    assert forall|a: HostAddress| after.has(a) <==> (a == at || before.has(a)) by {
                        if after.has(a) {
                            let j = after.index_of(a);
                            if j != n {
                                assert(address_of(before.entries()[j]) == a);
                            }
                        }
                        if before.has(a) {
                            let j = before.index_of(a);
                            assert(address_of(after.entries()[j]) == a);
                        }
                    }
                    assert forall|a: HostAddress| after.has(a) && a != at implies key_of(
                        after.entries()[after.index_of(a)],
                    ) == key_of(before.entries()[before.index_of(a)]) by {
                        let j = after.index_of(a);
                        after.lemma_entry_is_mapped(j);
                        assert(after.entries()[j] == before.entries()[j]);
                        before.lemma_entry_is_mapped(j);
                    }
                    assert(after@ =~= before@.insert(at, key_text(*key)));
                }
            },
        }
    }
}

/// A host that is not on file is unknown. Once a key is trusted for it, that
/// key is valid, and any other key is invalid and is answered with the
/// trusted one.
pub proof fn law_validate_after_trust(known: Map<HostAddress, KeyText>, at: HostAddress, key: KeyText, other: KeyText)
    ensures
        !known.contains_key(at) ==> validation_of(known, at, key) == ValidationModel::Unknown,
        validation_of(known.insert(at, key), at, key) == ValidationModel::Valid,
        other != key ==> validation_of(known.insert(at, key), at, other) == ValidationModel::Invalid(key),
{
}

/// Trusting the same key for the same address again changes neither the
/// mapping nor the number of entries, and the address has a single entry.
pub proof fn law_trust_is_idempotent(
    before: KnownHosts,
    once: KnownHosts,
    twice: KnownHosts,
    at: HostAddress,
    key: KeyText,
)
    requires
        before.wf(),
        once.is_trust_of(before, at, key),
        twice.is_trust_of(once, at, key),
    ensures
        twice@ == once@,
        twice.entries().len() == once.entries().len(),
        once.single_entry(at),
        twice.single_entry(at),
{
    assert(once@.contains_key(at));
    assert(twice@ =~= once@);
    assert forall|i: int, j: int|
        0 <= i < once.entries().len() && 0 <= j < once.entries().len() && address_of(
            #[trigger] once.entries()[i],
        ) == at && address_of(#[trigger] once.entries()[j]) == at implies i == j by {
        once.lemma_entry_is_mapped(i);
        once.lemma_entry_is_mapped(j);
    }
    assert forall|i: int, j: int|
        0 <= i < twice.entries().len() && 0 <= j < twice.entries().len() && address_of(
            #[trigger] twice.entries()[i],
        ) == at && address_of(#[trigger] twice.entries()[j]) == at implies i == j by {
        twice.lemma_entry_is_mapped(i);
        twice.lemma_entry_is_mapped(j);
    }
}

} // verus!
