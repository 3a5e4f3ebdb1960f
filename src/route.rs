//! Route records as the kernel reports them, and the search for the default
//! gateway among them.

use vstd::prelude::*;

use crate::text::{append_decimal, decimal, ipv4_text, ipv4_to_text, ipv6_text, ipv6_to_text};

verus! {

/// The address family of a routing-table query.
#[derive(Clone, Copy, Debug, PartialEq, Eq, Structural)]
pub enum AddressFamily {
    Ipv4,
    Ipv6,
}

/// The address held by a route attribute.
#[derive(Clone, Copy, Debug)]
pub enum RouteAddress {
    Inet([u8; 4]),
    Inet6([u8; 16]),
    /// Any representation other than IPv4 or IPv6.
    Other,
}

/// One attribute of a route record, as far as the gateway search reads it.
#[derive(Clone, Copy, Debug)]
pub enum RouteAttribute {
    /// The next-hop address.
    Gateway(RouteAddress),
    /// The numeric index of the outgoing interface.
    Oif(u32),
    /// Any attribute that the search does not read.
    Other,
}

/// A route record: its destination prefix length and its attributes, in order.
#[derive(Debug)]
pub struct RouteRecord {
    pub destination_prefix_length: u8,
    pub attributes: Vec<RouteAttribute>,
}

/// A failure of the query transport: the route query could not be read.
#[derive(Debug)]
pub struct QueryFailure {
    pub message: String,
}

/// What reading the next item of a route query gives.
#[derive(Debug)]
pub enum RouteEvent {
    Record(RouteRecord),
    Failed(QueryFailure),
    /// The query stream has ended.
    End,
}

/// What the reader of a route query does after one item.
#[derive(Debug)]
pub enum ScanStep {
    /// Read the next item.
    Continue,
    /// Stop reading: the resolution is decided.
    Finished(Result<Option<String>, QueryFailure>),
}

/// The address of the first gateway attribute, if any.
pub open spec fn first_gateway(attrs: Seq<RouteAttribute>) -> Option<RouteAddress>
    decreases attrs.len(),
{
    if attrs.len() == 0 {
        None
    } else {
        match attrs[0] {
            RouteAttribute::Gateway(a) => Some(a),
            _ => first_gateway(attrs.drop_first()),
        }
    }
}

/// The interface index of the first outgoing-interface attribute, if any.
pub open spec fn first_oif(attrs: Seq<RouteAttribute>) -> Option<u32>
    decreases attrs.len(),
{
    if attrs.len() == 0 {
        None
    } else {
        match attrs[0] {
            RouteAttribute::Oif(i) => Some(i),
            _ => first_oif(attrs.drop_first()),
        }
    }
}

/// The canonical text of an IPv4 or IPv6 address; none for another kind.
pub open spec fn address_text(a: RouteAddress) -> Option<Seq<char>> {
    match a {
        RouteAddress::Inet(o) => Some(ipv4_text(o@)),
        RouteAddress::Inet6(o) => Some(ipv6_text(o@)),
        RouteAddress::Other => None,
    }
}

/// The gateway that a route record gives for a query of `family`: the record
/// must be a default route (prefix length 0) whose first gateway attribute is
/// an IPv4 or IPv6 address. For IPv6 the index of the first outgoing
/// interface, if there is one, is appended as a zone suffix `%index`.
pub open spec fn record_gateway(r: RouteRecord, family: AddressFamily) -> Option<Seq<char>> {
    if r.destination_prefix_length != 0 {
        None
    } else {
        match first_gateway(r.attributes@) {
            None => None,
            Some(a) => match address_text(a) {
                None => None,
                Some(t) => match first_oif(r.attributes@) {
                    Some(i) if family == AddressFamily::Ipv6 => Some(t + seq!['%'] + decimal(
                        i as nat,
                    )),
                    _ => Some(t),
                },
            },
        }
    }
}

/// The view of an optional string as optional text.
pub open spec fn opt_text(o: Option<String>) -> Option<Seq<char>> {
    match o {
        Some(s) => Some(s@),
        None => None,
    }
}

/// The first gateway attribute's address, by a linear scan.
fn find_gateway(attrs: &Vec<RouteAttribute>) -> (r: Option<RouteAddress>)
    ensures
        r == first_gateway(attrs@),
{
    let mut i: usize = 0;
    assert(attrs@.subrange(0, attrs@.len() as int) =~= attrs@);
    while i < attrs.len()
        invariant
            i <= attrs@.len(),
            first_gateway(attrs@) == first_gateway(attrs@.subrange(i as int, attrs@.len() as int)),
        decreases attrs@.len() - i,
    {
        let ghost rest = attrs@.subrange(i as int, attrs@.len() as int);
        assert(rest.drop_first() =~= attrs@.subrange(i + 1, attrs@.len() as int));
        match attrs[i] {
            RouteAttribute::Gateway(a) => {
                return Some(a);
            },
            _ => {},
        }
        i = i + 1;
    }
    None
}

/// The first outgoing-interface index, by a linear scan.
fn find_oif(attrs: &Vec<RouteAttribute>) -> (r: Option<u32>)
    ensures
        r == first_oif(attrs@),
{
    let mut i: usize = 0;
    assert(attrs@.subrange(0, attrs@.len() as int) =~= attrs@);
    while i < attrs.len()
        invariant
            i <= attrs@.len(),
            first_oif(attrs@) == first_oif(attrs@.subrange(i as int, attrs@.len() as int)),
        decreases attrs@.len() - i,
    {
        let ghost rest = attrs@.subrange(i as int, attrs@.len() as int);
        assert(rest.drop_first() =~= attrs@.subrange(i + 1, attrs@.len() as int));
        match attrs[i] {
            RouteAttribute::Oif(x) => {
                return Some(x);
            },
            _ => {},
        }
        i = i + 1;
    }
    None
}

/// The gateway that one route record gives for a query of `family`, as text.
pub fn gateway_of_route(route: &RouteRecord, family: AddressFamily) -> (r: Option<String>)
    ensures
        opt_text(r) == record_gateway(*route, family),
{
    if route.destination_prefix_length != 0 {
        return None;
    }
    let gateway = match find_gateway(&route.attributes) {
        None => {
            return None;
        },
        Some(a) => a,
    };
    let mut text = match gateway {
        RouteAddress::Inet(o) => ipv4_to_text(o),
        RouteAddress::Inet6(o) => ipv6_to_text(o),
        RouteAddress::Other => {
            return None;
        },
    };
    if family == AddressFamily::Ipv6 {
        match find_oif(&route.attributes) {
            Some(oif) => {
                let ghost t = text@;
                let percent = "%";
                proof {
                    reveal_strlit("%");
                }
                text.append(percent);
                append_decimal(&mut text, oif);
                assert(text@ =~= t + seq!['%'] + decimal(oif as nat));
            },
            None => {},
        }
    }
    Some(text)
}

/// The view of a resolution: the gateway text if one was found, or the
/// message of the transport failure.
pub open spec fn outcome_view(o: Result<Option<String>, QueryFailure>) -> Result<
    Option<Seq<char>>,
    Seq<char>,
> {
    match o {
        Ok(g) => Ok(opt_text(g)),
        Err(e) => Err(e.message@),
    }
}

/// What one item of a route query decides: none to read on, or the outcome.
pub open spec fn event_outcome(family: AddressFamily, e: RouteEvent) -> Option<
    Result<Option<Seq<char>>, Seq<char>>,
> {
    match e {
        RouteEvent::Record(r) => match record_gateway(r, family) {
            Some(t) => Some(Ok(Some(t))),
            None => None,
        },
        RouteEvent::Failed(f) => Some(Err(f.message@)),
        RouteEvent::End => Some(Ok(None)),
    }
}

/// The view of a scan step.
pub open spec fn step_view(s: ScanStep) -> Option<Result<Option<Seq<char>>, Seq<char>>> {
    match s {
        ScanStep::Continue => None,
        ScanStep::Finished(o) => Some(outcome_view(o)),
    }
}

/// The resolution of a query of `family` whose stream yields `events`: the
/// first record that gives a gateway decides, unless a failure or the end of
/// the stream comes first. A stream that runs out gives no gateway.
pub open spec fn resolution(family: AddressFamily, events: Seq<RouteEvent>) -> Result<
    Option<Seq<char>>,
    Seq<char>,
>
    decreases events.len(),
{
    if events.len() == 0 {
        Ok(None)
    } else {
        match event_outcome(family, events[0]) {
            Some(o) => o,
            None => resolution(family, events.drop_first()),
        }
    }
}

/// Decides what follows one item read from a route query of `family`.
pub fn scan_step(family: AddressFamily, event: &RouteEvent) -> (r: ScanStep)
    ensures
        step_view(r) == event_outcome(family, *event),
{
    match event {
        RouteEvent::Record(route) => match gateway_of_route(route, family) {
            Some(t) => ScanStep::Finished(Ok(Some(t))),
            None => ScanStep::Continue,
        },
        RouteEvent::Failed(f) => ScanStep::Finished(Err(QueryFailure { message: f.message.clone() })),
        RouteEvent::End => ScanStep::Finished(Ok(None)),
    }
}

/// Resolves the default gateway of `family` from the items of a route query,
/// read in order.
pub fn resolve_routes(family: AddressFamily, events: &Vec<RouteEvent>) -> (r: Result<
    Option<String>,
    QueryFailure,
>)
    ensures
        outcome_view(r) == resolution(family, events@),
{
    let mut i: usize = 0;
    assert(events@.subrange(0, events@.len() as int) =~= events@);
    while i < events.len()
        invariant
            i <= events@.len(),
            resolution(family, events@) == resolution(
                family,
                events@.subrange(i as int, events@.len() as int),
            ),
        decreases events@.len() - i,
    {
        let ghost rest = events@.subrange(i as int, events@.len() as int);
        assert(rest.drop_first() =~= events@.subrange(i + 1, events@.len() as int));
        match scan_step(family, &events[i]) {
            ScanStep::Finished(o) => {
                return o;
            },
            ScanStep::Continue => {},
        }
        i = i + 1;
    }
    Ok(None)
}

} // verus!
