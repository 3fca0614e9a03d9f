//! External direct-mode gateways served by the station, and the direct-mode
//! subscribers that are reachable through them.
use crate::table::{Key, Table};
use crate::tdma::TdmaTime;
use vstd::prelude::*;

verus! {

/// A logical direct-mode subscriber address reachable through a gateway. It is
/// no direct registration and never takes the place of one.
#[derive(Debug, Clone, Copy, PartialEq, Eq, Structural)]
pub struct DmMsRouteAddress {
    pub ssi: u32,
    pub mcc: Option<u16>,
    pub mnc: Option<u16>,
}

/// The direct-mode carrier of a gateway.
#[derive(Debug, Clone, Copy, PartialEq, Eq, Structural)]
pub struct DmoCarrierState {
    pub carrier_number: u16,
    pub frequency_band: Option<u8>,
    pub offset: Option<u8>,
    pub duplex_spacing: Option<u8>,
    pub normal_reverse: Option<bool>,
}

/// A gateway, besides the addresses behind it.
#[derive(Debug, Clone, Copy, PartialEq, Eq, Structural)]
pub struct DmGatewaySession {
    pub gateway_issi: u32,
    pub dmo_carrier: Option<DmoCarrierState>,
    pub last_seen: TdmaTime,
}

/// That an address is reachable through a gateway.
#[derive(Debug, Clone, Copy, PartialEq, Eq, Structural)]
pub struct GatewayRoute {
    pub gateway_issi: u32,
    pub address: DmMsRouteAddress,
}

impl Key for GatewayRoute {
    fn same(&self, other: &Self) -> (r: bool) {
        *self == *other
    }
}

/// The model of the registry.
#[verifier::ext_equal]
pub ghost struct GatewaysView {
    pub gateways: Seq<(u32, DmGatewaySession)>,
    pub routes: Seq<(GatewayRoute, bool)>,
}

/// Whether a route does not lead through the gateway.
pub open spec fn through_another(gateway_issi: u32) -> spec_fn((GatewayRoute, bool)) -> bool {
    |entry: (GatewayRoute, bool)| entry.0.gateway_issi != gateway_issi
}

/// The routes with those through the gateway to the addresses.
pub open spec fn routes_with(
    routes: Seq<(GatewayRoute, bool)>,
    gateway_issi: u32,
    addresses: Seq<DmMsRouteAddress>,
) -> Seq<(GatewayRoute, bool)>
    decreases addresses.len(),
{
    if addresses.len() == 0 {
        routes
    } else {
        crate::table::put(
            routes_with(routes, gateway_issi, addresses.drop_last()),
            GatewayRoute { gateway_issi, address: addresses.last() },
            true,
        )
    }
}

/// The routes without those through the gateway to the addresses.
pub open spec fn routes_without(
    routes: Seq<(GatewayRoute, bool)>,
    gateway_issi: u32,
    addresses: Seq<DmMsRouteAddress>,
) -> Seq<(GatewayRoute, bool)>
    decreases addresses.len(),
{
    if addresses.len() == 0 {
        routes
    } else {
        crate::table::del(
            routes_without(routes, gateway_issi, addresses.drop_last()),
            GatewayRoute { gateway_issi, address: addresses.last() },
        )
    }
}

/// The gateways of the routes to an address.
pub open spec fn gateways_to(routes: Seq<(GatewayRoute, bool)>, address: DmMsRouteAddress) -> Seq<
    u32,
>
    decreases routes.len(),
{
    if routes.len() == 0 {
        Seq::empty()
    } else {
        let before = gateways_to(routes.drop_last(), address);
        if routes.last().0.address == address {
            before.push(routes.last().0.gateway_issi)
        } else {
            before
        }
    }
}

/// The addresses of the routes through a gateway.
pub open spec fn addresses_behind(routes: Seq<(GatewayRoute, bool)>, gateway_issi: u32) -> Seq<
    DmMsRouteAddress,
>
    decreases routes.len(),
{
    if routes.len() == 0 {
        Seq::empty()
    } else {
        let before = addresses_behind(routes.drop_last(), gateway_issi);
        if routes.last().0.gateway_issi == gateway_issi {
            before.push(routes.last().0.address)
        } else {
            before
        }
    }
}

/// The route to a short identity whose gateway has the lowest identity; the
/// first of them where there are several.
pub open spec fn lowest_route(routes: Seq<(GatewayRoute, bool)>, ssi: u32) -> Option<GatewayRoute>
    decreases routes.len(),
{
    if routes.len() == 0 {
        None
    } else {
        let before = lowest_route(routes.drop_last(), ssi);
        let last = routes.last().0;
        if last.address.ssi != ssi {
            before
        } else {
            match before {
                Some(route) if route.gateway_issi <= last.gateway_issi => before,
                _ => Some(last),
            }
        }
    }
}

impl GatewaysView {
    /// Nothing stands twice, and every route leads through an active gateway.
    pub open spec fn wf(self) -> bool {
        &&& crate::table::distinct(self.gateways)
        &&& crate::table::distinct(self.routes)
        &&& forall|i: int|
            0 <= i < self.routes.len() ==> self.is_active((#[trigger] self.routes[i]).0.gateway_issi)
    }

    /// No gateway is active.
    pub open spec fn empty() -> GatewaysView {
        GatewaysView { gateways: Seq::empty(), routes: Seq::empty() }
    }

    /// Whether the gateway is active.
    pub open spec fn is_active(self, gateway_issi: u32) -> bool {
        crate::table::contains(self.gateways, gateway_issi)
    }

    /// The gateway, if it is active.
    pub open spec fn session(self, gateway_issi: u32) -> Option<DmGatewaySession> {
        crate::table::lookup(self.gateways, gateway_issi)
    }

    /// Whether the address is reachable through the gateway.
    pub open spec fn reaches(self, gateway_issi: u32, address: DmMsRouteAddress) -> bool {
        crate::table::contains(self.routes, GatewayRoute { gateway_issi, address })
    }

    /// With the gateway changed.
    pub open spec fn with(self, session: DmGatewaySession) -> GatewaysView {
        GatewaysView {
            gateways: crate::table::put(self.gateways, session.gateway_issi, session),
            ..self
        }
    }

    /// Without the gateway.
    pub open spec fn deactivated(self, gateway_issi: u32) -> GatewaysView {
        if self.is_active(gateway_issi) {
            GatewaysView {
                gateways: crate::table::del(self.gateways, gateway_issi),
                routes: self.routes.filter(through_another(gateway_issi)),
            }
        } else {
            self
        }
    }

    /// With the gateway active and exactly these addresses behind it.
    pub open spec fn activated(
        self,
        gateway_issi: u32,
        dmo_carrier: Option<DmoCarrierState>,
        addresses: Seq<DmMsRouteAddress>,
        now: TdmaTime,
    ) -> GatewaysView {
        let cleared = self.deactivated(gateway_issi);
        GatewaysView {
            routes: routes_with(cleared.routes, gateway_issi, addresses),
            ..cleared.with(DmGatewaySession { gateway_issi, dmo_carrier, last_seen: now })
        }
    }

    /// With the gateway seen.
    pub open spec fn seen(self, gateway_issi: u32, now: TdmaTime) -> GatewaysView {
        match self.session(gateway_issi) {
            Some(session) => GatewaysView {
                gateways: crate::table::put(
                    self.gateways,
                    gateway_issi,
                    DmGatewaySession { last_seen: now, ..session },
                ),
                ..self
            },
            None => self,
        }
    }

    /// With more addresses behind an active gateway.
    pub open spec fn extended(
        self,
        gateway_issi: u32,
        addresses: Seq<DmMsRouteAddress>,
        now: TdmaTime,
    ) -> GatewaysView {
        if self.is_active(gateway_issi) {
            GatewaysView {
                routes: routes_with(self.routes, gateway_issi, addresses),
                ..self.seen(gateway_issi, now)
            }
        } else {
            self
        }
    }

    /// With fewer addresses behind an active gateway.
    pub open spec fn reduced(
        self,
        gateway_issi: u32,
        addresses: Seq<DmMsRouteAddress>,
        now: TdmaTime,
    ) -> GatewaysView {
        if self.is_active(gateway_issi) {
            GatewaysView {
                routes: routes_without(self.routes, gateway_issi, addresses),
                ..self.seen(gateway_issi, now)
            }
        } else {
            self
        }
    }

    /// With other addresses behind the gateway, which keeps its carrier.
    pub open spec fn replaced(
        self,
        gateway_issi: u32,
        addresses: Seq<DmMsRouteAddress>,
        now: TdmaTime,
    ) -> GatewaysView {
        self.activated(
            gateway_issi,
            match self.session(gateway_issi) {
                Some(session) => session.dmo_carrier,
                None => None,
            },
            addresses,
            now,
        )
    }

    /// With the carrier of an active gateway changed.
    pub open spec fn retuned(
        self,
        gateway_issi: u32,
        dmo_carrier: Option<DmoCarrierState>,
        now: TdmaTime,
    ) -> GatewaysView {
        match self.session(gateway_issi) {
            Some(session) => GatewaysView {
                gateways: crate::table::put(
                    self.gateways,
                    gateway_issi,
                    DmGatewaySession { dmo_carrier, last_seen: now, ..session },
                ),
                ..self
            },
            None => self,
        }
    }
}

/// The active gateways and the routes through them.
#[derive(Debug)]
pub struct DmGatewayRegistry {
    gateways: Table<u32, DmGatewaySession>,
    routes: Table<GatewayRoute, bool>,
}

impl View for DmGatewayRegistry {
    type V = GatewaysView;

    closed spec fn view(&self) -> GatewaysView {
        GatewaysView { gateways: self.gateways@, routes: self.routes@ }
    }
}

impl Default for DmGatewayRegistry {
    /// No gateway is active.
    fn default() -> (registry: Self)
        ensures
            registry@ == GatewaysView::empty(),
            registry@.wf(),
    {
        DmGatewayRegistry { gateways: Table::new(), routes: Table::new() }
    }
}

impl DmGatewayRegistry {
    fn add_routes(&mut self, gateway_issi: u32, addresses: &Vec<DmMsRouteAddress>)
        ensures
            final(self)@.gateways == old(self)@.gateways,
            final(self)@.routes == routes_with(old(self)@.routes, gateway_issi, addresses@),
    {
        let ghost before = self@;
        let mut i: usize = 0;
        while i < addresses.len()
            invariant
                i <= addresses@.len(),
                self@.gateways == before.gateways,
                self@.routes == routes_with(
                    before.routes,
                    gateway_issi,
                    addresses@.take(i as int),
                ),
            decreases addresses@.len() - i,
        {
            proof {
                assert(addresses@.take(i + 1).drop_last() =~= addresses@.take(i as int));
                assert(addresses@.take(i + 1).last() == addresses@[i as int]);
            }
            self.routes.insert(GatewayRoute { gateway_issi, address: addresses[i] }, true);
            i = i + 1;
        }
        assert(addresses@.take(addresses@.len() as int) =~= addresses@);
    }

    /// Activates a gateway with exactly these addresses behind it.
    pub fn activate(
        &mut self,
        gateway_issi: u32,
        dmo_carrier: Option<DmoCarrierState>,
        addresses: &Vec<DmMsRouteAddress>,
        now: TdmaTime,
    )
        ensures
            final(self)@ == old(self)@.activated(gateway_issi, dmo_carrier, addresses@, now),
    {
        self.deactivate(gateway_issi);
        self.add_routes(gateway_issi, addresses);
        self.gateways.insert(
            gateway_issi,
            DmGatewaySession { gateway_issi, dmo_carrier, last_seen: now },
        );
    }

    /// Deactivates a gateway with all its routes.
    pub fn deactivate(&mut self, gateway_issi: u32)
        ensures
            final(self)@ == old(self)@.deactivated(gateway_issi),
    {
        let ghost before = self@;
        if self.gateways.remove(gateway_issi).is_none() {
            assert(crate::table::del(before.gateways, gateway_issi) =~= before.gateways) by {
                crate::table::lemma_del_absent(before.gateways, gateway_issi);
            }
            return;
        }
        let ghost keep = through_another(gateway_issi);
        let ghost gateways = self@.gateways;
        let mut kept: Vec<(GatewayRoute, bool)> = Vec::new();
        let mut i: usize = 0;
        proof {
            reveal(Seq::filter);
            assert(before.routes.take(0) =~= Seq::empty());
        }
        while i < self.routes.len()
            invariant
                i <= self.routes@.len(),
                self@.gateways == gateways,
                self.routes@ == before.routes,
                keep == through_another(gateway_issi),
                kept@ == before.routes.take(i as int).filter(keep),
            decreases self.routes@.len() - i,
        {
            let entry = self.routes.entry(i);
            proof {
                reveal(Seq::filter);
                assert(before.routes.take(i + 1).drop_last() =~= before.routes.take(i as int));
                assert(before.routes.take(i + 1).last() == before.routes[i as int]);
            }
            if entry.0.gateway_issi != gateway_issi {
                kept.push(entry);
            }
            i = i + 1;
        }
        assert(before.routes.take(before.routes.len() as int) =~= before.routes);
        self.routes = Table::from_entries(kept);
    }

    /// Adds addresses behind an active gateway.
    pub fn add_addresses(
        &mut self,
        gateway_issi: u32,
        addresses: &Vec<DmMsRouteAddress>,
        now: TdmaTime,
    )
        ensures
            final(self)@ == old(self)@.extended(gateway_issi, addresses@, now),
    {
        if !self.gateways.contains_key(gateway_issi) {
            return;
        }
        self.touch(gateway_issi, now);
        self.add_routes(gateway_issi, addresses);
    }

    /// Removes addresses behind an active gateway.
    pub fn remove_addresses(
        &mut self,
        gateway_issi: u32,
        addresses: &Vec<DmMsRouteAddress>,
        now: TdmaTime,
    )
        ensures
            final(self)@ == old(self)@.reduced(gateway_issi, addresses@, now),
    {
        if !self.gateways.contains_key(gateway_issi) {
            return;
        }
        self.touch(gateway_issi, now);
        let ghost before = self@;
        let mut i: usize = 0;
        while i < addresses.len()
            invariant
                i <= addresses@.len(),
                self@.gateways == before.gateways,
                self@.routes == routes_without(
                    before.routes,
                    gateway_issi,
                    addresses@.take(i as int),
                ),
            decreases addresses@.len() - i,
        {
            proof {
                assert(addresses@.take(i + 1).drop_last() =~= addresses@.take(i as int));
                assert(addresses@.take(i + 1).last() == addresses@[i as int]);
            }
            self.routes.remove(GatewayRoute { gateway_issi, address: addresses[i] });
            i = i + 1;
        }
        assert(addresses@.take(addresses@.len() as int) =~= addresses@);
    }

    /// Puts other addresses behind a gateway, which keeps its carrier.
    pub fn replace_addresses(
        &mut self,
        gateway_issi: u32,
        addresses: &Vec<DmMsRouteAddress>,
        now: TdmaTime,
    )
        ensures
            final(self)@ == old(self)@.replaced(gateway_issi, addresses@, now),
    {
        let carrier: Option<DmoCarrierState> = match self.gateways.get(gateway_issi) {
            Some(session) => session.dmo_carrier,
            None => None,
        };
        self.activate(gateway_issi, carrier, addresses, now);
    }

    /// Notes that a gateway was seen.
    pub fn touch(&mut self, gateway_issi: u32, now: TdmaTime)
        ensures
            final(self)@ == old(self)@.seen(gateway_issi, now),
    {
        if let Some(session) = self.gateways.get(gateway_issi) {
            self.gateways.insert(gateway_issi, DmGatewaySession { last_seen: now, ..session });
        }
    }

    /// Changes the carrier of an active gateway.
    pub fn update_carrier(
        &mut self,
        gateway_issi: u32,
        dmo_carrier: Option<DmoCarrierState>,
        now: TdmaTime,
    )
        ensures
            final(self)@ == old(self)@.retuned(gateway_issi, dmo_carrier, now),
    {
        if let Some(session) = self.gateways.get(gateway_issi) {
            self.gateways.insert(
                gateway_issi,
                DmGatewaySession { dmo_carrier, last_seen: now, ..session },
            );
        }
    }

    /// Whether the gateway is active.
    pub fn is_active(&self, gateway_issi: u32) -> (r: bool)
        ensures
            r == self@.is_active(gateway_issi),
    {
        self.gateways.contains_key(gateway_issi)
    }

    /// The gateways through which an address is reachable.
    pub fn gateways_for(&self, address: DmMsRouteAddress) -> (list: Vec<u32>)
        ensures
            list@ == gateways_to(self@.routes, address),
            forall|gateway_issi: u32| #[trigger]
                list@.contains(gateway_issi) <==> self@.reaches(gateway_issi, address),
            self@.wf() ==> list@.no_duplicates(),
    {
        let mut list: Vec<u32> = Vec::new();
        let mut i: usize = 0;
        while i < self.routes.len()
            invariant
                i <= self.routes@.len(),
                list@ == gateways_to(self.routes@.take(i as int), address),
            decreases self.routes@.len() - i,
        {
            let (route, _) = self.routes.entry(i);
            proof {
                assert(self.routes@.take(i + 1).drop_last() =~= self.routes@.take(i as int));
                assert(self.routes@.take(i + 1).last() == self.routes@[i as int]);
            }
            if route.address == address {
                list.push(route.gateway_issi);
            }
            i = i + 1;
        }
        proof {
            assert(self.routes@.take(self.routes@.len() as int) =~= self.routes@);
            law_lists_hold_what_is_reached(self@);
        }
        list
    }

    /// One radio endpoint for a short identity. The lowest gateway identity
    /// wins where direct-mode areas overlap.
    pub fn gateway_for_ssi(&self, ssi: u32) -> (found: Option<(u32, DmMsRouteAddress)>)
        ensures
            found == match lowest_route(self@.routes, ssi) {
                Some(route) => Some((route.gateway_issi, route.address)),
                None => None,
            },
    {
        let mut best: Option<GatewayRoute> = None;
        let mut i: usize = 0;
        while i < self.routes.len()
            invariant
                i <= self.routes@.len(),
                best == lowest_route(self.routes@.take(i as int), ssi),
            decreases self.routes@.len() - i,
        {
            let (route, _) = self.routes.entry(i);
            proof {
                assert(self.routes@.take(i + 1).drop_last() =~= self.routes@.take(i as int));
                assert(self.routes@.take(i + 1).last() == self.routes@[i as int]);
            }
            if route.address.ssi == ssi {
                let better: bool = match best {
                    Some(found) => route.gateway_issi < found.gateway_issi,
                    None => true,
                };
                if better {
                    best = Some(route);
                }
            }
            i = i + 1;
        }
        assert(self.routes@.take(self.routes@.len() as int) =~= self.routes@);
        match best {
            Some(route) => Some((route.gateway_issi, route.address)),
            None => None,
        }
    }

    /// The gateway, if it is active.
    pub fn session(&self, gateway_issi: u32) -> (session: Option<DmGatewaySession>)
        ensures
            session == self@.session(gateway_issi),
    {
        self.gateways.get(gateway_issi)
    }

    /// The addresses behind a gateway.
    pub fn addresses_of(&self, gateway_issi: u32) -> (list: Vec<DmMsRouteAddress>)
        ensures
            list@ == addresses_behind(self@.routes, gateway_issi),
            forall|address: DmMsRouteAddress| #[trigger]
                list@.contains(address) <==> self@.reaches(gateway_issi, address),
            self@.wf() ==> list@.no_duplicates(),
    {
        let mut list: Vec<DmMsRouteAddress> = Vec::new();
        let mut i: usize = 0;
        while i < self.routes.len()
            invariant
                i <= self.routes@.len(),
                list@ == addresses_behind(self.routes@.take(i as int), gateway_issi),
            decreases self.routes@.len() - i,
        {
            let (route, _) = self.routes.entry(i);
            proof {
                assert(self.routes@.take(i + 1).drop_last() =~= self.routes@.take(i as int));
                assert(self.routes@.take(i + 1).last() == self.routes@[i as int]);
            }
            if route.gateway_issi == gateway_issi {
                list.push(route.address);
            }
            i = i + 1;
        }
        proof {
            assert(self.routes@.take(self.routes@.len() as int) =~= self.routes@);
            law_lists_hold_what_is_reached(self@);
        }
        list
    }
}

proof fn lemma_rest_is_distinct(routes: Seq<(GatewayRoute, bool)>)
    requires
        crate::table::distinct(routes),
        routes.len() > 0,
    ensures
        crate::table::distinct(routes.drop_last()),
        !crate::table::contains(routes.drop_last(), routes.last().0),
{
    let rest = routes.drop_last();
    assert forall|i: int, j: int| 0 <= i < rest.len() && 0 <= j < rest.len() && i != j implies (
    #[trigger] rest[i]).0 != (#[trigger] rest[j]).0 by {
        assert(routes[i].0 != routes[j].0);
    }
    crate::table::lemma_contains(rest, routes.last().0);
    if crate::table::contains(rest, routes.last().0) {
        let i = choose|i: int|
            0 <= i < rest.len() && (#[trigger] rest[i]).0 == routes.last().0;
        assert(routes[i].0 != routes[routes.len() - 1].0);
    }
}

proof fn lemma_gateways_to(routes: Seq<(GatewayRoute, bool)>, address: DmMsRouteAddress)
    ensures
        forall|gateway_issi: u32| #[trigger]
            gateways_to(routes, address).contains(gateway_issi) <==> crate::table::contains(
                routes,
                GatewayRoute { gateway_issi, address },
            ),
        crate::table::distinct(routes) ==> gateways_to(routes, address).no_duplicates(),
    decreases routes.len(),
{
    if routes.len() > 0 {
        let rest = routes.drop_last();
        let before = gateways_to(rest, address);
        let last = routes.last().0;
        lemma_gateways_to(rest, address);
        if crate::table::distinct(routes) {
            lemma_rest_is_distinct(routes);
        }
        assert forall|gateway_issi: u32| #[trigger]
            gateways_to(routes, address).contains(gateway_issi) <==> crate::table::contains(
                routes,
                GatewayRoute { gateway_issi, address },
            ) by {
            assert(before.contains(gateway_issi) <==> crate::table::contains(
                rest,
                GatewayRoute { gateway_issi, address },
            ));
            if last.address == address {
                vstd::seq_lib::lemma_seq_contains_after_push(
                    before,
                    last.gateway_issi,
                    gateway_issi,
                );
                assert(last == GatewayRoute { gateway_issi: last.gateway_issi, address });
            }
        }
        if crate::table::distinct(routes) && last.address == address {
            assert(!before.contains(last.gateway_issi));
        }
    }
}

proof fn lemma_addresses_behind(routes: Seq<(GatewayRoute, bool)>, gateway_issi: u32)
    ensures
        forall|address: DmMsRouteAddress| #[trigger]
            addresses_behind(routes, gateway_issi).contains(address) <==> crate::table::contains(
                routes,
                GatewayRoute { gateway_issi, address },
            ),
        crate::table::distinct(routes) ==> addresses_behind(routes, gateway_issi).no_duplicates(),
    decreases routes.len(),
{
    if routes.len() > 0 {
        let rest = routes.drop_last();
        let before = addresses_behind(rest, gateway_issi);
        let last = routes.last().0;
        lemma_addresses_behind(rest, gateway_issi);
        if crate::table::distinct(routes) {
            lemma_rest_is_distinct(routes);
        }
        assert forall|address: DmMsRouteAddress| #[trigger]
            addresses_behind(routes, gateway_issi).contains(address) <==> crate::table::contains(
                routes,
                GatewayRoute { gateway_issi, address },
            ) by {
            assert(before.contains(address) <==> crate::table::contains(
                rest,
                GatewayRoute { gateway_issi, address },
            ));
            if last.gateway_issi == gateway_issi {
                vstd::seq_lib::lemma_seq_contains_after_push(before, last.address, address);
                assert(last == GatewayRoute { gateway_issi, address: last.address });
            }
        }
        if crate::table::distinct(routes) && last.gateway_issi == gateway_issi {
            assert(!before.contains(last.address));
        }
    }
}

/// The gateways that are listed for an address are those that reach it, the
/// addresses that are listed for a gateway are those that it reaches, and none
/// is listed twice.
pub proof fn law_lists_hold_what_is_reached(registry: GatewaysView)
    ensures
        forall|gateway_issi: u32, address: DmMsRouteAddress| #[trigger]
            gateways_to(registry.routes, address).contains(gateway_issi) <==> registry.reaches(
                gateway_issi,
                address,
            ),
        forall|gateway_issi: u32, address: DmMsRouteAddress| #[trigger]
            addresses_behind(registry.routes, gateway_issi).contains(address) <==> registry.reaches(
                gateway_issi,
                address,
            ),
        registry.wf() ==> forall|address: DmMsRouteAddress| #[trigger]
            gateways_to(registry.routes, address).no_duplicates(),
        registry.wf() ==> forall|gateway_issi: u32| #[trigger]
            addresses_behind(registry.routes, gateway_issi).no_duplicates(),
{
    assert forall|address: DmMsRouteAddress|
        #![trigger gateways_to(registry.routes, address)]
        (forall|gateway_issi: u32| #[trigger]
            gateways_to(registry.routes, address).contains(gateway_issi) <==> registry.reaches(
                gateway_issi,
                address,
            )) && (registry.wf() ==> gateways_to(registry.routes, address).no_duplicates()) by {
        lemma_gateways_to(registry.routes, address);
    }
    assert forall|gateway_issi: u32|
        #![trigger addresses_behind(registry.routes, gateway_issi)]
        (forall|address: DmMsRouteAddress| #[trigger]
            addresses_behind(registry.routes, gateway_issi).contains(address) <==> registry.reaches(
                gateway_issi,
                address,
            )) && (registry.wf() ==> addresses_behind(
            registry.routes,
            gateway_issi,
        ).no_duplicates()) by {
        lemma_addresses_behind(registry.routes, gateway_issi);
    }
}

proof fn lemma_routes_with(
    routes: Seq<(GatewayRoute, bool)>,
    gateway_issi: u32,
    addresses: Seq<DmMsRouteAddress>,
    route: GatewayRoute,
)
    ensures
        crate::table::contains(routes_with(routes, gateway_issi, addresses), route) == (
        crate::table::contains(routes, route) || (route.gateway_issi == gateway_issi
            && addresses.contains(route.address))),
        crate::table::distinct(routes) ==> crate::table::distinct(
            routes_with(routes, gateway_issi, addresses),
        ),
    decreases addresses.len(),
{
    if addresses.len() > 0 {
        let before = routes_with(routes, gateway_issi, addresses.drop_last());
        let last = GatewayRoute { gateway_issi, address: addresses.last() };
        lemma_routes_with(routes, gateway_issi, addresses.drop_last(), route);
        crate::table::law_lookup_after_put(before, last, true, route);
        if crate::table::distinct(routes) {
            crate::table::law_put_keeps_distinct(before, last, true);
        }
        lemma_last_or_before(addresses, route.address);
    }
}

proof fn lemma_routes_without(
    routes: Seq<(GatewayRoute, bool)>,
    gateway_issi: u32,
    addresses: Seq<DmMsRouteAddress>,
    route: GatewayRoute,
)
    ensures
        crate::table::contains(routes_without(routes, gateway_issi, addresses), route) == (
        crate::table::contains(routes, route) && !(route.gateway_issi == gateway_issi
            && addresses.contains(route.address))),
        crate::table::distinct(routes) ==> crate::table::distinct(
            routes_without(routes, gateway_issi, addresses),
        ),
    decreases addresses.len(),
{
    if addresses.len() > 0 {
        let before = routes_without(routes, gateway_issi, addresses.drop_last());
        let last = GatewayRoute { gateway_issi, address: addresses.last() };
        lemma_routes_without(routes, gateway_issi, addresses.drop_last(), route);
        crate::table::law_lookup_after_del(before, last, route);
        if crate::table::distinct(routes) {
            crate::table::law_del_keeps_distinct(before, last);
        }
        lemma_last_or_before(addresses, route.address);
    }
}

proof fn lemma_last_or_before(addresses: Seq<DmMsRouteAddress>, address: DmMsRouteAddress)
    requires
        addresses.len() > 0,
    ensures
        addresses.contains(address) == (addresses.last() == address
            || addresses.drop_last().contains(address)),
{
    let rest = addresses.drop_last();
    if addresses.contains(address) && addresses.last() != address {
        let i = choose|i: int| 0 <= i < addresses.len() && addresses[i] == address;
        assert(rest[i] == address);
    }
    if rest.contains(address) {
        let i = choose|i: int| 0 <= i < rest.len() && rest[i] == address;
        assert(addresses[i] == address);
    }
    if addresses.last() == address {
        assert(addresses[addresses.len() - 1] == address);
    }
}

/// An activated gateway reaches exactly the addresses it was activated with, and
/// no other gateway's session or routes change.
pub proof fn law_activation(
    registry: GatewaysView,
    gateway_issi: u32,
    dmo_carrier: Option<DmoCarrierState>,
    addresses: Seq<DmMsRouteAddress>,
    now: TdmaTime,
    other: u32,
    address: DmMsRouteAddress,
)
    requires
        registry.wf(),
    ensures
        ({
            let after = registry.activated(gateway_issi, dmo_carrier, addresses, now);
            &&& after.is_active(gateway_issi)
            &&& after.session(gateway_issi) == Some(
                DmGatewaySession { gateway_issi, dmo_carrier, last_seen: now },
            )
            &&& other != gateway_issi ==> after.session(other) == registry.session(other)
            &&& after.reaches(other, address) == if other == gateway_issi {
                addresses.contains(address)
            } else {
                registry.reaches(other, address)
            }
        }),
{
    let cleared = registry.deactivated(gateway_issi);
    let session = DmGatewaySession { gateway_issi, dmo_carrier, last_seen: now };
    let route = GatewayRoute { gateway_issi: other, address };
    crate::table::law_lookup_after_put(cleared.gateways, gateway_issi, session, gateway_issi);
    crate::table::law_lookup_after_put(cleared.gateways, gateway_issi, session, other);
    lemma_routes_with(cleared.routes, gateway_issi, addresses, route);
    law_deactivation(registry, gateway_issi, other, address);
}

/// A deactivated gateway reaches nothing, and no other gateway's session or
/// routes change.
pub proof fn law_deactivation(
    registry: GatewaysView,
    gateway_issi: u32,
    other: u32,
    address: DmMsRouteAddress,
)
    requires
        registry.wf(),
    ensures
        !registry.deactivated(gateway_issi).is_active(gateway_issi),
        other != gateway_issi ==> registry.deactivated(gateway_issi).session(other)
            == registry.session(other),
        registry.deactivated(gateway_issi).reaches(other, address) == (other != gateway_issi
            && registry.reaches(other, address)),
{
    let route = GatewayRoute { gateway_issi: other, address };
    crate::table::law_lookup_after_del(registry.gateways, gateway_issi, gateway_issi);
    crate::table::law_lookup_after_del(registry.gateways, gateway_issi, other);
    crate::table::law_lookup_after_key_filter(
        registry.routes,
        through_another(gateway_issi),
        route,
    );
    if !registry.is_active(gateway_issi) && other == gateway_issi {
        crate::table::lemma_contains(registry.routes, route);
    }
}

/// Adding and removing addresses changes the routes of that gateway to those
/// addresses, only where it is active, and no other gateway's session or routes.
pub proof fn law_addresses(
    registry: GatewaysView,
    gateway_issi: u32,
    addresses: Seq<DmMsRouteAddress>,
    now: TdmaTime,
    other: u32,
    address: DmMsRouteAddress,
)
    ensures
        registry.extended(gateway_issi, addresses, now).reaches(other, address) == (
        registry.reaches(other, address) || (registry.is_active(gateway_issi) && other
            == gateway_issi && addresses.contains(address))),
        registry.reduced(gateway_issi, addresses, now).reaches(other, address) == (
        registry.reaches(other, address) && !(registry.is_active(gateway_issi) && other
            == gateway_issi && addresses.contains(address))),
        other != gateway_issi ==> registry.extended(gateway_issi, addresses, now).session(other)
            == registry.session(other),
        other != gateway_issi ==> registry.reduced(gateway_issi, addresses, now).session(other)
            == registry.session(other),
{
    let route = GatewayRoute { gateway_issi: other, address };
    if let Some(session) = registry.session(gateway_issi) {
        crate::table::law_lookup_after_put(
            registry.gateways,
            gateway_issi,
            DmGatewaySession { last_seen: now, ..session },
            other,
        );
    }
    lemma_routes_with(registry.routes, gateway_issi, addresses, route);
    lemma_routes_without(registry.routes, gateway_issi, addresses, route);
}

/// The route that is chosen exists and no gateway with a lower identity reaches
/// the same short identity; one is chosen wherever any exists.
pub proof fn law_lowest_gateway_wins(routes: Seq<(GatewayRoute, bool)>, ssi: u32, i: int)
    requires
        0 <= i < routes.len(),
        routes[i].0.address.ssi == ssi,
    ensures
        lowest_route(routes, ssi) is Some,
        lowest_route(routes, ssi)->0.gateway_issi <= routes[i].0.gateway_issi,
        lowest_route(routes, ssi)->0.address.ssi == ssi,
        crate::table::contains(routes, lowest_route(routes, ssi)->0),
    decreases routes.len(),
{
    let rest = routes.drop_last();
    if i < routes.len() - 1 {
        assert(rest[i] == routes[i]);
        law_lowest_gateway_wins(rest, ssi, i);
    } else {
        lemma_lowest_is_a_route(rest, ssi);
    }
    lemma_lowest_is_a_route(routes, ssi);
}

proof fn lemma_lowest_is_a_route(routes: Seq<(GatewayRoute, bool)>, ssi: u32)
    ensures
        match lowest_route(routes, ssi) {
            Some(route) => route.address.ssi == ssi && crate::table::contains(routes, route),
            None => forall|i: int|
                0 <= i < routes.len() ==> (#[trigger] routes[i]).0.address.ssi != ssi,
        },
    decreases routes.len(),
{
    if routes.len() > 0 {
        let rest = routes.drop_last();
        lemma_lowest_is_a_route(rest, ssi);
        assert(forall|i: int| 0 <= i < rest.len() ==> #[trigger] routes[i] == rest[i]);
    }
}

/// Every change keeps the registry well formed.
pub proof fn law_registry_stays_well_formed(
    registry: GatewaysView,
    gateway_issi: u32,
    dmo_carrier: Option<DmoCarrierState>,
    addresses: Seq<DmMsRouteAddress>,
    now: TdmaTime,
)
    requires
        registry.wf(),
    ensures
        registry.deactivated(gateway_issi).wf(),
        registry.activated(gateway_issi, dmo_carrier, addresses, now).wf(),
        registry.extended(gateway_issi, addresses, now).wf(),
        registry.reduced(gateway_issi, addresses, now).wf(),
        registry.replaced(gateway_issi, addresses, now).wf(),
        registry.seen(gateway_issi, now).wf(),
        registry.retuned(gateway_issi, dmo_carrier, now).wf(),
{
    lemma_deactivated_wf(registry, gateway_issi);
    let cleared = registry.deactivated(gateway_issi);
    lemma_with_routes_wf(
        cleared,
        DmGatewaySession { gateway_issi, dmo_carrier, last_seen: now },
        addresses,
    );
    if let Some(session) = registry.session(gateway_issi) {
        let seen = DmGatewaySession { last_seen: now, ..session };
        let retuned = DmGatewaySession { dmo_carrier, last_seen: now, ..session };
        lemma_put_gateway_wf(registry, gateway_issi, seen);
        lemma_put_gateway_wf(registry, gateway_issi, retuned);
        crate::table::law_lookup_after_put(registry.gateways, gateway_issi, seen, gateway_issi);
        lemma_routes_wf(registry.seen(gateway_issi, now), gateway_issi, addresses);
        lemma_with_routes_wf(
            cleared,
            DmGatewaySession {
                gateway_issi,
                dmo_carrier: session.dmo_carrier,
                last_seen: now,
            },
            addresses,
        );
    } else {
        lemma_with_routes_wf(
            cleared,
            DmGatewaySession { gateway_issi, dmo_carrier: None, last_seen: now },
            addresses,
        );
    }
}

proof fn lemma_deactivated_wf(registry: GatewaysView, gateway_issi: u32)
    requires
        registry.wf(),
    ensures
        registry.deactivated(gateway_issi).wf(),
{
    let after = registry.deactivated(gateway_issi);
    let keep = through_another(gateway_issi);
    crate::table::law_del_keeps_distinct(registry.gateways, gateway_issi);
    if registry.is_active(gateway_issi) {
        crate::table::law_lookup_after_filter(
            registry.routes,
            keep,
            GatewayRoute {
                gateway_issi,
                address: DmMsRouteAddress { ssi: 0, mcc: None, mnc: None },
            },
        );
        assert forall|i: int| 0 <= i < after.routes.len() implies after.is_active(
            (#[trigger] after.routes[i]).0.gateway_issi,
        ) by {
            let route = after.routes[i].0;
            crate::table::lemma_contains(after.routes, route);
            crate::table::law_lookup_after_key_filter(registry.routes, keep, route);
            crate::table::lemma_contains(registry.routes, route);
            crate::table::law_lookup_after_del(
                registry.gateways,
                gateway_issi,
                route.gateway_issi,
            );
        }
    }
}

proof fn lemma_put_gateway_wf(registry: GatewaysView, gateway_issi: u32, session: DmGatewaySession)
    requires
        registry.wf(),
    ensures
        (GatewaysView {
            gateways: crate::table::put(registry.gateways, gateway_issi, session),
            ..registry
        }).wf(),
{
    let after = GatewaysView {
        gateways: crate::table::put(registry.gateways, gateway_issi, session),
        ..registry
    };
    crate::table::law_put_keeps_distinct(registry.gateways, gateway_issi, session);
    assert forall|i: int| 0 <= i < after.routes.len() implies after.is_active(
        (#[trigger] after.routes[i]).0.gateway_issi,
    ) by {
        crate::table::law_lookup_after_put(
            registry.gateways,
            gateway_issi,
            session,
            after.routes[i].0.gateway_issi,
        );
    }
}

proof fn lemma_routes_wf(
    registry: GatewaysView,
    gateway_issi: u32,
    addresses: Seq<DmMsRouteAddress>,
)
    requires
        registry.wf(),
        registry.is_active(gateway_issi),
    ensures
        (GatewaysView {
            routes: routes_with(registry.routes, gateway_issi, addresses),
            ..registry
        }).wf(),
        (GatewaysView {
            routes: routes_without(registry.routes, gateway_issi, addresses),
            ..registry
        }).wf(),
{
    let more = routes_with(registry.routes, gateway_issi, addresses);
    let fewer = routes_without(registry.routes, gateway_issi, addresses);
    let any = GatewayRoute {
        gateway_issi,
        address: DmMsRouteAddress { ssi: 0, mcc: None, mnc: None },
    };
    lemma_routes_with(registry.routes, gateway_issi, addresses, any);
    lemma_routes_without(registry.routes, gateway_issi, addresses, any);
    assert forall|i: int| 0 <= i < more.len() implies registry.is_active(
        (#[trigger] more[i]).0.gateway_issi,
    ) by {
        crate::table::lemma_contains(more, more[i].0);
        lemma_routes_with(registry.routes, gateway_issi, addresses, more[i].0);
        crate::table::lemma_contains(registry.routes, more[i].0);
    }
    assert forall|i: int| 0 <= i < fewer.len() implies registry.is_active(
        (#[trigger] fewer[i]).0.gateway_issi,
    ) by {
        crate::table::lemma_contains(fewer, fewer[i].0);
        lemma_routes_without(registry.routes, gateway_issi, addresses, fewer[i].0);
        crate::table::lemma_contains(registry.routes, fewer[i].0);
    }
}

proof fn lemma_with_routes_wf(
    registry: GatewaysView,
    session: DmGatewaySession,
    addresses: Seq<DmMsRouteAddress>,
)
    requires
        registry.wf(),
    ensures
        (GatewaysView {
            routes: routes_with(registry.routes, session.gateway_issi, addresses),
            ..registry.with(session)
        }).wf(),
{
    lemma_put_gateway_wf(registry, session.gateway_issi, session);
    crate::table::law_lookup_after_put(
        registry.gateways,
        session.gateway_issi,
        session,
        session.gateway_issi,
    );
    lemma_routes_wf(registry.with(session), session.gateway_issi, addresses);
}

/// Whatever an active gateway sends, it was seen then, and it keeps what it did not
/// change: more or fewer addresses leave its carrier, another carrier leaves its
/// addresses. One that is not active stays unknown.
pub proof fn law_gateway_is_seen_with_what_it_sends(
    registry: GatewaysView,
    gateway_issi: u32,
    carrier: Option<DmoCarrierState>,
    addresses: Seq<DmMsRouteAddress>,
    now: TdmaTime,
)
    requires
        registry.wf(),
    ensures
        registry.is_active(gateway_issi) ==> ({
            let before = registry.session(gateway_issi)->0;
            let seen = Some(DmGatewaySession { last_seen: now, ..before });
            let tuned = registry.retuned(gateway_issi, carrier, now);
            &&& registry.seen(gateway_issi, now).session(gateway_issi) == seen
            &&& registry.seen(gateway_issi, now).routes == registry.routes
            &&& registry.extended(gateway_issi, addresses, now).session(gateway_issi) == seen
            &&& registry.reduced(gateway_issi, addresses, now).session(gateway_issi) == seen
            &&& tuned.session(gateway_issi) == Some(
                DmGatewaySession { dmo_carrier: carrier, last_seen: now, ..before },
            )
            &&& tuned.routes == registry.routes
            &&& registry.replaced(gateway_issi, addresses, now).session(gateway_issi) == Some(
                DmGatewaySession {
                    gateway_issi,
                    dmo_carrier: before.dmo_carrier,
                    last_seen: now,
                },
            )
        }),
        !registry.is_active(gateway_issi) ==> {
            &&& registry.seen(gateway_issi, now) == registry
            &&& registry.extended(gateway_issi, addresses, now) == registry
            &&& registry.reduced(gateway_issi, addresses, now) == registry
            &&& registry.retuned(gateway_issi, carrier, now) == registry
        },
{
    if let Some(before) = registry.session(gateway_issi) {
        let seen = DmGatewaySession { last_seen: now, ..before };
        let tuned = DmGatewaySession { dmo_carrier: carrier, last_seen: now, ..before };
        let gateways = registry.gateways;
        crate::table::law_lookup_after_put(gateways, gateway_issi, seen, gateway_issi);
        crate::table::law_lookup_after_put(gateways, gateway_issi, tuned, gateway_issi);
        let kept = DmGatewaySession {
            gateway_issi,
            dmo_carrier: before.dmo_carrier,
            last_seen: now,
        };
        let cleared = registry.deactivated(gateway_issi).gateways;
        crate::table::law_lookup_after_put(cleared, gateway_issi, kept, gateway_issi);
    }
}

} // verus!
