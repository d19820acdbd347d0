//! Bind strategy and teardown duty of a listening endpoint.
//!
//! A listening endpoint bound to an IPv4 multicast group must not bind the
//! group address directly (some platforms reject that): it binds the
//! wildcard address on the same port, enables address reuse so several
//! listeners can share the port, stays non-blocking, and then joins the
//! group on any interface. On teardown it must leave that group, exactly
//! once, before the socket closes.

use vstd::prelude::*;
use crate::addr::{Ipv4Rep, SocketAddrRep, ipv4_is_multicast, ipv4_multicast_spec, ipv4_unspecified_spec};

verus! {

/// How a listening endpoint binds for a requested address.
#[derive(Clone, Copy, Debug, PartialEq, Eq, Structural)]
pub enum BindPlan {
    /// Bind the wildcard IPv4 address on `port` with address reuse enabled
    /// and the socket non-blocking, then join multicast group `group` on any
    /// interface.
    MulticastGroup { group: Ipv4Rep, port: u16 },
    /// Bind the requested address directly.
    Direct,
}

/// The bind strategy for a requested address: the multicast plan exactly
/// when the address is an IPv4 multicast group, the direct bind otherwise.
pub open spec fn listen_plan_spec(addr: SocketAddrRep) -> BindPlan {
    match addr {
        SocketAddrRep::V4 { ip, port } => if ipv4_multicast_spec(ip) {
            BindPlan::MulticastGroup { group: ip, port }
        } else {
            BindPlan::Direct
        },
        SocketAddrRep::V6 { .. } => BindPlan::Direct,
    }
}

/// Chooses the bind strategy for the requested listening address.
pub fn listen_strategy(addr: &SocketAddrRep) -> (r: BindPlan)
    ensures
        r == listen_plan_spec(*addr),
{
    match addr {
        SocketAddrRep::V4 { ip, port } => {
            if ipv4_is_multicast(ip) {
                BindPlan::MulticastGroup { group: *ip, port: *port }
            } else {
                BindPlan::Direct
            }
        },
        SocketAddrRep::V6 { .. } => BindPlan::Direct,
    }
}

/// The address actually bound for a requested address: the wildcard address
/// on the same port for an IPv4 multicast group, the requested address
/// itself otherwise.
pub open spec fn bind_address_spec(addr: SocketAddrRep) -> SocketAddrRep {
    match addr {
        SocketAddrRep::V4 { ip, port } => if ipv4_multicast_spec(ip) {
            SocketAddrRep::V4 { ip: ipv4_unspecified_spec(), port }
        } else {
            addr
        },
        SocketAddrRep::V6 { .. } => addr,
    }
}

/// Computes the address a listening endpoint actually binds for the
/// requested address.
pub fn bind_address(addr: &SocketAddrRep) -> (r: SocketAddrRep)
    ensures
        r == bind_address_spec(*addr),
{
    match addr {
        SocketAddrRep::V4 { ip, port } => {
            if ipv4_is_multicast(ip) {
                SocketAddrRep::V4 { ip: crate::addr::ipv4_unspecified(), port: *port }
            } else {
                *addr
            }
        },
        SocketAddrRep::V6 { .. } => *addr,
    }
}

/// The group a listening endpoint must leave at teardown: the IPv4 multicast
/// group it was bound to, if any.
pub open spec fn teardown_spec(addr: SocketAddrRep) -> Option<Ipv4Rep> {
    match addr {
        SocketAddrRep::V4 { ip, .. } => if ipv4_multicast_spec(ip) {
            Some(ip)
        } else {
            None
        },
        SocketAddrRep::V6 { .. } => None,
    }
}

/// Reports the multicast group, if any, that a listening endpoint bound to
/// `addr` must leave (on any interface) immediately before its socket is
/// released. Returns `Some` exactly when `addr` is an IPv4 multicast group.
pub fn teardown_action(addr: &SocketAddrRep) -> (r: Option<Ipv4Rep>)
    ensures
        r == teardown_spec(*addr),
{
    match addr {
        SocketAddrRep::V4 { ip, .. } => {
            if ipv4_is_multicast(ip) {
                Some(*ip)
            } else {
                None
            }
        },
        SocketAddrRep::V6 { .. } => None,
    }
}

/// The bind strategy and the bound address agree: a request for an IPv4
/// multicast group binds the wildcard address on the requested port and
/// joins exactly the requested group; every other request binds the
/// requested address itself.
pub proof fn lemma_multicast_binds_wildcard(addr: SocketAddrRep)
    ensures
        (match listen_plan_spec(addr) {
            BindPlan::MulticastGroup { group, port } => {
                &&& bind_address_spec(addr) == SocketAddrRep::V4 {
                    ip: ipv4_unspecified_spec(),
                    port,
                }
                &&& addr == SocketAddrRep::V4 { ip: group, port }
            },
            BindPlan::Direct => bind_address_spec(addr) == addr,
        }),
{
}

/// A listening endpoint joins a multicast group at bind time exactly when
/// its teardown leaves one, and the group left is the group joined: every
/// group membership taken by the bind strategy is released, and no teardown
/// leaves a group that was never joined.
pub proof fn lemma_join_leave_agree(addr: SocketAddrRep)
    ensures
        (match listen_plan_spec(addr) {
            BindPlan::MulticastGroup { group, .. } => teardown_spec(addr) == Some(group),
            BindPlan::Direct => teardown_spec(addr) is None,
        }),
{
}

} // verus!
