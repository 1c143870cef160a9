//! Resolved addresses and the single-pass sequence of endpoints built from them.

use vstd::prelude::*;

use hickory_resolver::lookup_ip::LookupIp;

use crate::hickory::{lookup_ip_data, lookup_record_data};

verus! {

/// An IP address, as the resolver reports it.
#[derive(Clone, Copy, Debug, PartialEq, Eq)]
pub enum IpAddress {
    V4([u8; 4]),
    V6([u8; 16]),
}

/// An IP address paired with a port.
#[derive(Clone, Copy, Debug, PartialEq, Eq)]
pub struct SocketAddress {
    pub ip: IpAddress,
    pub port: u16,
}

/// The endpoint that stands for a resolved address: the address with port 0,
/// which the connection layer replaces with the service port.
pub open spec fn endpoint(ip: IpAddress) -> SocketAddress {
    SocketAddress { ip, port: 0 }
}

/// The endpoints for a list of resolved addresses, one each, in the same order.
pub open spec fn endpoints(ips: Seq<IpAddress>) -> Seq<SocketAddress> {
    ips.map_values(|ip: IpAddress| endpoint(ip))
}

/// The addresses in an answer's record data, in order: the records that hold
/// no address are passed over.
pub open spec fn answer_addresses(data: Seq<Option<IpAddress>>) -> Seq<IpAddress>
    decreases data.len(),
{
    if data.len() == 0 {
        Seq::empty()
    } else {
        let rest = answer_addresses(data.drop_last());
        match data.last() {
            Some(ip) => rest.push(ip),
            None => rest,
        }
    }
}

/// A sequence built from addresses `a1, ..., an` holds exactly the endpoints
/// `(a1, 0), ..., (an, 0)`, in that order, and nothing after them: no address
/// is reordered, dropped or repeated.
pub proof fn lemma_endpoints_in_order(ips: Seq<IpAddress>)
    ensures
        endpoints(ips).len() == ips.len(),
        forall|i: int| 0 <= i < ips.len() ==> #[trigger] endpoints(ips)[i] == (SocketAddress { ip: ips[i], port: 0 }),
{
}

/// A forward-only sequence of endpoints over the addresses of one resolution.
pub struct SocketAddrs {
    addrs: Vec<IpAddress>,
    pos: usize,
}

impl View for SocketAddrs {
    type V = Seq<SocketAddress>;

    /// The endpoints not yet handed out, in the order they will come.
    closed spec fn view(&self) -> Seq<SocketAddress> {
        endpoints(self.addrs@.subrange(self.pos as int, self.addrs@.len() as int))
    }
}

impl SocketAddrs {
    #[verifier::type_invariant]
    spec fn inv(self) -> bool {
        self.pos <= self.addrs@.len()
    }

    /// A sequence over `addrs`, in their order, each with port 0.
    pub fn from_addresses(addrs: Vec<IpAddress>) -> (r: SocketAddrs)
        ensures
            r@ == endpoints(addrs@),
    {
        let r = SocketAddrs { addrs, pos: 0 };
        assert(r.addrs@.subrange(0, r.addrs@.len() as int) =~= addrs@);
        r
    }

    /// A sequence over the addresses in an answer's record data, in order.
    pub fn from_record_data(data: Vec<Option<IpAddress>>) -> (r: SocketAddrs)
        ensures
            r@ == endpoints(answer_addresses(data@)),
    {
        let mut addrs: Vec<IpAddress> = Vec::new();
        let mut i: usize = 0;
        while i < data.len()
            invariant
                i <= data@.len(),
                addrs@ == answer_addresses(data@.subrange(0, i as int)),
            decreases data@.len() - i,
        {
            assert(data@.subrange(0, i + 1).drop_last() =~= data@.subrange(0, i as int));
            match data[i] {
                Some(ip) => addrs.push(ip),
                None => {},
            }
            i = i + 1;
        }
        assert(data@.subrange(0, data@.len() as int) =~= data@);
        Self::from_addresses(addrs)
    }

    /// A sequence over the addresses that a lookup found, in the order the
    /// resolver reported them.
    pub fn from_lookup_ip(lookup: &LookupIp) -> (r: SocketAddrs)
        ensures
            r@ == endpoints(answer_addresses(lookup_ip_data(*lookup))),
    {
        Self::from_record_data(lookup_record_data(lookup))
    }

    /// Every endpoint that a sequence still holds has port 0.
    pub proof fn lemma_ports_zero(&self)
        ensures
            forall|i: int| 0 <= i < self@.len() ==> (#[trigger] self@[i]).port == 0,
    {
    }

    /// The next endpoint, or `None` once every address has been handed out.
    pub fn next(&mut self) -> (r: Option<SocketAddress>)
        ensures
            old(self)@.len() == 0 ==> r is None && final(self)@ == old(self)@,
            old(self)@.len() > 0 ==> r == Some(old(self)@[0]) && final(self)@ == old(self)@.drop_first(),
    {
        proof {
            use_type_invariant(&*self);
        }
        if self.pos < self.addrs.len() {
            let ip = self.addrs[self.pos];
            self.pos = self.pos + 1;
            assert(self@ =~= old(self)@.drop_first());
            Some(SocketAddress { ip, port: 0 })
        } else {
            None
        }
    }
}

} // verus!
