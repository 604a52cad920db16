use vstd::prelude::*;

verus! {

/// Issuer certificates (base64 DER) keyed by base64 key identifier.
pub struct TrustStore {
    entries: Vec<(String, String)>,
}

/// The certificate of the first entry whose key identifier is `kid`.
pub open spec fn lookup(entries: Seq<(Seq<char>, Seq<char>)>, kid: Seq<char>) -> Option<Seq<char>>
    decreases entries.len(),
{
    if entries.len() == 0 {
        None
    } else if entries[0].0 == kid {
        Some(entries[0].1)
    } else {
        lookup(entries.drop_first(), kid)
    }
}

impl View for TrustStore {
    type V = Seq<(Seq<char>, Seq<char>)>;

    closed spec fn view(&self) -> Seq<(Seq<char>, Seq<char>)> {
        self.entries@.map_values(|e: (String, String)| (e.0@, e.1@))
    }
}

impl TrustStore {
    /// A store without certificates.
    pub fn new() -> (r: TrustStore)
        ensures
            r@ == Seq::<(Seq<char>, Seq<char>)>::empty(),
    {
        let r = TrustStore { entries: Vec::new() };
        assert(r@ =~= Seq::<(Seq<char>, Seq<char>)>::empty());
        r
    }

    /// Adds the certificate of the issuer with key identifier `kid`, after the
    /// entries already there.
    pub fn add(&mut self, kid: String, certificate: String)
        ensures
            final(self)@ == old(self)@.push((kid@, certificate@)),
    {
        let ghost k = kid@;
        let ghost c = certificate@;
        self.entries.push((kid, certificate));
        assert(final(self)@ =~= old(self)@.push((k, c)));
    }

    /// The certificate of the issuer with key identifier `kid`.
    pub fn find_issuer_cert(&self, kid: &str) -> (r: Option<&String>)
        ensures
            match r {
                Some(c) => lookup(self@, kid@) == Some(c@),
                None => lookup(self@, kid@) is None,
            },
    {
        let key = kid.to_owned();
        let mut i: usize = 0;
        assert(self@.skip(0) =~= self@);
        while i < self.entries.len()
            invariant
                i <= self.entries@.len(),
                self@.len() == self.entries@.len(),
                key@ == kid@,
                lookup(self@, kid@) == lookup(self@.skip(i as int), kid@),
            decreases self.entries@.len() - i,
        {
            assert(self@.skip(i as int).drop_first() =~= self@.skip(i + 1));
            assert(self@.skip(i as int)[0] == (self.entries@[i as int].0@, self.entries@[i as int].1@));
            if self.entries[i].0 == key {
                return Some(&self.entries[i].1);
            }
            i = i + 1;
        }
        None
    }
}

} // verus!
