//! A static DNS resolver: a fixed table of host names and addresses.
use vstd::prelude::*;
use vstd::string::StringSliceAdditionalSpecFns;

verus! {

/// An IP address.
#[derive(PartialEq, Eq, Structural, Clone, Copy, Debug)]
pub enum IpAddress {
    V4(u8, u8, u8, u8),
}

/// Why a host name could not be resolved.
#[derive(PartialEq, Eq, Structural, Clone, Copy, Debug)]
pub enum DnsError {
    NotFound,
}

/// A host name and its address.
pub struct DnsEntry<'a> {
    host: &'a str,
    ip: IpAddress,
}

impl<'a> DnsEntry<'a> {
    /// The entry of `host` at `ip`.
    pub fn new(host: &'a str, ip: IpAddress) -> (e: Self)
        ensures
            e.spec_host() == host.spec_bytes(),
            e.spec_ip() == ip,
    {
        DnsEntry { host, ip }
    }

    /// The bytes of the host name.
    pub closed spec fn spec_host(&self) -> Seq<u8> {
        self.host.spec_bytes()
    }

    /// The address.
    pub closed spec fn spec_ip(&self) -> IpAddress {
        self.ip
    }
}

/// The index of the first entry for `host`, or the number of entries.
pub open spec fn first_entry(entries: Seq<DnsEntry>, host: Seq<u8>) -> int
    decreases entries.len(),
{
    if entries.len() == 0 {
        0
    } else if entries[0].spec_host() == host {
        0
    } else {
        1 + first_entry(entries.skip(1), host)
    }
}

/// A resolver over a fixed table; of several entries for one host the
/// first is taken.
pub struct StaticDnsResolver<'a> {
    entries: &'a [DnsEntry<'a>],
}

impl<'a> StaticDnsResolver<'a> {
    /// A resolver over `entries`.
    pub fn new(entries: &'a [DnsEntry<'a>]) -> (r: Self)
        ensures
            r.spec_entries() == entries@,
    {
        StaticDnsResolver { entries }
    }

    /// The table.
    pub closed spec fn spec_entries(&self) -> Seq<DnsEntry<'a>> {
        self.entries@
    }

    /// The address of the first entry for `host`, or not found.
    pub fn resolve(&self, host: &str) -> (r: Result<[IpAddress; 1], DnsError>)
        ensures
            ({
                let i = first_entry(self.spec_entries(), host.spec_bytes());
                &&& i < self.spec_entries().len() ==> (r matches Ok(a) && a[0] == self.spec_entries()[i].spec_ip())
                &&& i >= self.spec_entries().len() ==> r == Err::<[IpAddress; 1], DnsError>(DnsError::NotFound)
            }),
    {
        let wanted = host.as_bytes();
        let ghost s = self.entries@;
        let mut k: usize = 0;
        assert(s.skip(0) =~= s);
        while k < self.entries.len()
            invariant
                k <= s.len(),
                s == self.entries@,
                wanted@ == host.spec_bytes(),
                first_entry(s, wanted@) == k + first_entry(s.skip(k as int), wanted@),
            decreases s.len() - k,
        {
            let entry = &self.entries[k];
            let have = entry.host.as_bytes();
            if bytes_equal(have, wanted) {
                assert(s.skip(k as int)[0] == s[k as int]);
                return Ok([entry.ip]);
            }
            assert(s.skip(k as int).skip(1) =~= s.skip(k as int + 1));
            assert(s.skip(k as int)[0] == s[k as int]);
            k = k + 1;
        }
        assert(s.skip(k as int).len() == 0);
        Err(DnsError::NotFound)
    }
}

/// Whether two byte strings are equal.
fn bytes_equal(a: &[u8], b: &[u8]) -> (r: bool)
    ensures
        r == (a@ == b@),
{
    if a.len() != b.len() {
        return false;
    }
    let mut i: usize = 0;
    while i < a.len()
        invariant
            a@.len() == b@.len(),
            i <= a@.len(),
            forall|j: int| 0 <= j < i ==> a@[j] == b@[j],
        decreases a@.len() - i,
    {
        if a[i] != b[i] {
            return false;
        }
        i = i + 1;
    }
    assert(a@ =~= b@);
    true
}

} // verus!
