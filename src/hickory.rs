//! The types of hickory's resolver that the library carries, and the reading
//! of a lookup's answer.

use vstd::prelude::*;

use hickory_resolver::config::{ResolverConfig, ResolverOpts};
use hickory_resolver::error::ResolveError;
use hickory_resolver::lookup_ip::LookupIp;
use hickory_resolver::proto::rr::RData;

use crate::address::IpAddress;

verus! {

#[verifier::external_type_specification]
#[verifier::external_body]
pub struct ExResolveError(ResolveError);

#[verifier::external_type_specification]
#[verifier::external_body]
pub struct ExResolverConfig(ResolverConfig);

#[verifier::external_type_specification]
#[verifier::external_body]
pub struct ExResolverOpts(ResolverOpts);

#[verifier::external_type_specification]
#[verifier::external_body]
pub struct ExLookupIp(LookupIp);

/// The record data of a lookup's answer, in the order the resolver reported
/// it: the address of each A or AAAA record, `None` for a record of another
/// type, ending at the first record that carries no data.
pub uninterp spec fn lookup_ip_data(l: LookupIp) -> Seq<Option<IpAddress>>;

/// Relies on `LookupIp::as_lookup` and `Lookup::iter`: one item per record, in
/// the answer's order, ending where a record carries no data (as `LookupIp`'s
/// own iterators do); `RData::A` and `RData::AAAA` hold the record's IPv4 and
/// IPv6 address.
#[verifier::external_body]
pub(crate) fn lookup_record_data(l: &LookupIp) -> (r: Vec<Option<IpAddress>>)
    ensures
        r@ == lookup_ip_data(*l),
{
    l.as_lookup().iter().map(|d| match d {
        RData::A(a) => Some(IpAddress::V4(a.octets())),
        RData::AAAA(a) => Some(IpAddress::V6(a.octets())),
        _ => None,
    }).collect()
}

} // verus!
