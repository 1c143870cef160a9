//! The resolution service: a shared handle on one resolver, always ready, whose
//! lookups become address sequences or wrapped errors.

use vstd::prelude::*;

use std::sync::Arc;

use hickory_resolver::config::{ResolverConfig, ResolverOpts};
use hickory_resolver::error::ResolveError;
use hickory_resolver::lookup_ip::LookupIp;
use hickory_resolver::TokioAsyncResolver;

use crate::address::{answer_addresses, endpoints, SocketAddrs};
use crate::error::Error;
use crate::hickory::lookup_ip_data;

verus! {

/// A cheaply cloned handle on one shared resolver.
///
/// The resolver's type cannot be stated to the verifier (its connection
/// provider parameter is bound by a trait of hickory), so the handle is opaque
/// here; clones share the same resolver.
#[verifier::external_body]
pub struct HickoryDnsResolver {
    pub inner: Arc<TokioAsyncResolver>,
}

impl Clone for HickoryDnsResolver {
    /// Relies on `Arc::clone`: the clone refers to the same resolver.
    #[verifier::external_body]
    fn clone(&self) -> (r: Self)
        ensures
            resolver_settings(r) == resolver_settings(*self),
    {
        HickoryDnsResolver { inner: Arc::clone(&self.inner) }
    }
}

/// The configuration and options that the handle's resolver was built from.
pub uninterp spec fn resolver_settings(r: HickoryDnsResolver) -> (ResolverConfig, ResolverOpts);

/// Relies on `TokioAsyncResolver::tokio`, which builds a resolver from the
/// configuration and options, stored as they are given, and never fails.
#[verifier::external_body]
fn resolver_with_config(config: ResolverConfig, opts: ResolverOpts) -> (r: HickoryDnsResolver)
    ensures
        resolver_settings(r) == (config, opts),
{
    HickoryDnsResolver { inner: Arc::new(TokioAsyncResolver::tokio(config, opts)) }
}

/// Relies on `hickory_resolver::system_conf::read_system_conf`, which reads
/// the system's resolver configuration and fails when it cannot be read or
/// parsed. What it returns depends on the machine, so nothing more is stated.
#[verifier::external_body]
fn read_system_settings() -> (r: Result<(ResolverConfig, ResolverOpts), ResolveError>) {
    hickory_resolver::system_conf::read_system_conf()
}

/// `r` is what the system-configuration constructor makes of the settings
/// read: a service over a resolver built from them, or the failure of the
/// read, wrapped.
pub open spec fn built_from_settings(
    res: Result<(ResolverConfig, ResolverOpts), ResolveError>,
    r: Result<HickoryDnsResolver, Error>,
) -> bool {
    match res {
        Ok((c, o)) => r matches Ok(h) && resolver_settings(h) == (c, o),
        Err(e) => r == Err::<HickoryDnsResolver, Error>(Error::HickoryDns(e)),
    }
}

impl HickoryDnsResolver {
    /// A service over a new resolver built from an explicit configuration and
    /// options, passed on to the resolver as they are.
    pub fn with_config_and_options(config: ResolverConfig, opts: ResolverOpts) -> (r: Self)
        ensures
            resolver_settings(r) == (config, opts),
    {
        resolver_with_config(config, opts)
    }

    /// A service over a new resolver built from the system's configuration.
    /// Fails, wrapping the resolver's error, when that configuration cannot be
    /// read.
    pub fn with_system_config() -> (r: Result<Self, Error>)
        ensures
            exists|res: Result<(ResolverConfig, ResolverOpts), ResolveError>|
                #[trigger] built_from_settings(res, r),
    {
        let res = read_system_settings();
        let r = Self::from_system_settings(res);
        assert(built_from_settings(res, r));
        r
    }

    /// What the system-configuration constructor makes of the settings read:
    /// a service over a resolver built from exactly them, or the failure of
    /// the read, wrapped.
    pub fn from_system_settings(res: Result<(ResolverConfig, ResolverOpts), ResolveError>) -> (r: Result<Self, Error>)
        ensures
            built_from_settings(res, r),
    {
        match res {
            Ok((config, opts)) => Ok(resolver_with_config(config, opts)),
            Err(e) => Err(Error::from(e)),
        }
    }

    /// Readiness: the service holds no queue or limit, so it is always ready,
    /// and asking changes nothing.
    pub fn poll_ready(&mut self) -> (r: Result<(), Error>)
        ensures
            r is Ok,
            *final(self) == *old(self),
    {
        Ok(())
    }

    /// What one call makes of the resolver's answer: on success a sequence
    /// over every address of the answer, in its order and each with port 0;
    /// on failure the resolver's error, wrapped.
    pub fn complete_call(res: Result<LookupIp, ResolveError>) -> (r: Result<SocketAddrs, Error>)
        ensures
            match res {
                Ok(l) => r matches Ok(s) && s@ == endpoints(answer_addresses(lookup_ip_data(l))),
                Err(e) => r == Err::<SocketAddrs, Error>(Error::HickoryDns(e)),
            },
    {
        match res {
            Ok(l) => Ok(SocketAddrs::from_lookup_ip(&l)),
            Err(e) => Err(Error::from(e)),
        }
    }
}

} // verus!
