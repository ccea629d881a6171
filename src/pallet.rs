use std::collections::HashMap;
use vstd::prelude::*;

use crate::currency::{transfer_outcome, transferred, Balances};
use crate::error::Error;
use crate::genome::{blake2_128_of, crossover, crossover_of, payload_of, random_value, Entropy, Kitty};

verus! {

/// Identifier of an asset.
pub type KittyId = u32;

/// Identifier of an account.
pub type AccountId = u64;

/// An amount of the currency that purchases are paid in.
pub type Balance = u128;

/// A record of a transition that succeeded, appended once per success.
#[derive(Clone, Copy, Debug, PartialEq, Eq)]
pub enum Event {
    KittyCreated { who: AccountId, kitty_id: KittyId, kitty: Kitty },
    KittyBreed { who: AccountId, kitty_id: KittyId, kitty: Kitty },
    KittyTransferred { from: AccountId, to: AccountId, kitty_id: KittyId },
    KittyOnSale { who: AccountId, kitty_id: KittyId },
    KittyBought { who: AccountId, kitty_id: KittyId },
}

/// The ledger as a mathematical value.
pub struct PalletView {
    /// The smallest identifier not yet allocated.
    pub next_kitty_id: KittyId,
    /// Genome of each asset.
    pub kitties: Map<KittyId, Kitty>,
    /// Owner of each asset.
    pub kitty_owner: Map<KittyId, AccountId>,
    /// Parents of each bred asset, in the order they were named.
    pub kitty_parents: Map<KittyId, (KittyId, KittyId)>,
    /// The account that listed each asset on sale.
    pub kitty_on_sale: Map<KittyId, AccountId>,
    /// Notifications, oldest first.
    pub events: Seq<Event>,
    /// The fixed price of every purchase.
    pub kitty_price: Balance,
}

impl PalletView {
    /// Every asset has a genome and an owner and an identifier below the next
    /// one; lineage and listings refer to existing assets only.
    pub open spec fn wf(&self) -> bool {
        &&& self.kitties.dom() == self.kitty_owner.dom()
        &&& forall|id: KittyId| #[trigger] self.kitties.contains_key(id) ==> id < self.next_kitty_id
        &&& forall|id: KittyId| #[trigger]
            self.kitty_parents.contains_key(id) ==> self.kitties.contains_key(id)
        &&& forall|id: KittyId| #[trigger]
            self.kitty_on_sale.contains_key(id) ==> self.kitty_owner.contains_key(id)
    }

    /// What allocating an identifier returns: the next one, unless the
    /// counter cannot advance.
    pub open spec fn allocation(&self) -> Result<KittyId, Error> {
        if self.next_kitty_id == u32::MAX {
            Err(Error::OutOfIds)
        } else {
            Ok(self.next_kitty_id)
        }
    }

    /// What `create` returns.
    pub open spec fn create_outcome(&self) -> Result<KittyId, Error> {
        if self.next_kitty_id == u32::MAX {
            Err(Error::InvalidKittyId)
        } else {
            Ok(self.next_kitty_id)
        }
    }

    /// The ledger after `who` receives a new asset with genome `kitty`.
    pub open spec fn created(self, who: AccountId, kitty: Kitty) -> PalletView {
        let id = self.next_kitty_id;
        PalletView {
            next_kitty_id: (id + 1) as u32,
            kitties: self.kitties.insert(id, kitty),
            kitty_owner: self.kitty_owner.insert(id, who),
            kitty_parents: self.kitty_parents,
            kitty_on_sale: self.kitty_on_sale,
            events: self.events.push(Event::KittyCreated { who, kitty_id: id, kitty }),
            kitty_price: self.kitty_price,
        }
    }

    /// What `breed` of parents `a` and `b` returns.
    pub open spec fn breed_outcome(&self, a: KittyId, b: KittyId) -> Result<KittyId, Error> {
        if a == b {
            Err(Error::SameKittyId)
        } else if !self.kitties.contains_key(a) || !self.kitties.contains_key(b) {
            Err(Error::InvalidKittyId)
        } else if self.next_kitty_id == u32::MAX {
            Err(Error::InvalidKittyId)
        } else {
            Ok(self.next_kitty_id)
        }
    }

    /// The ledger after `who` breeds `a` and `b` into a child of genome `kitty`.
    pub open spec fn bred(self, who: AccountId, a: KittyId, b: KittyId, kitty: Kitty) -> PalletView {
        let id = self.next_kitty_id;
        PalletView {
            next_kitty_id: (id + 1) as u32,
            kitties: self.kitties.insert(id, kitty),
            kitty_owner: self.kitty_owner.insert(id, who),
            kitty_parents: self.kitty_parents.insert(id, (a, b)),
            kitty_on_sale: self.kitty_on_sale,
            events: self.events.push(Event::KittyBreed { who, kitty_id: id, kitty }),
            kitty_price: self.kitty_price,
        }
    }

    /// What `transfer` of asset `id` by `who` returns.
    pub open spec fn transfer_outcome(&self, who: AccountId, id: KittyId) -> Result<(), Error> {
        if !self.kitty_owner.contains_key(id) {
            Err(Error::InvalidKittyId)
        } else if self.kitty_owner[id] != who {
            Err(Error::NotOwner)
        } else {
            Ok(())
        }
    }

    /// The ledger after `who` hands asset `id` to `to`.
    pub open spec fn transferred(self, who: AccountId, to: AccountId, id: KittyId) -> PalletView {
        PalletView {
            kitty_owner: self.kitty_owner.insert(id, to),
            events: self.events.push(Event::KittyTransferred { from: who, to, kitty_id: id }),
            ..self
        }
    }

    /// What `sale` of asset `id` by `who` returns.
    pub open spec fn sale_outcome(&self, who: AccountId, id: KittyId) -> Result<(), Error> {
        if !self.kitty_owner.contains_key(id) {
            Err(Error::InvalidKittyId)
        } else if self.kitty_owner[id] != who {
            Err(Error::NotOwner)
        } else if self.kitty_on_sale.contains_key(id) {
            Err(Error::AlreadyOnSale)
        } else {
            Ok(())
        }
    }

    /// The ledger after `who` lists asset `id`.
    pub open spec fn listed(self, who: AccountId, id: KittyId) -> PalletView {
        PalletView {
            kitty_on_sale: self.kitty_on_sale.insert(id, who),
            events: self.events.push(Event::KittyOnSale { who, kitty_id: id }),
            ..self
        }
    }

    /// What `buy` of asset `id` by `who` returns, given the balances it pays from.
    pub open spec fn buy_outcome(&self, who: AccountId, id: KittyId, funds: Map<AccountId, Balance>) -> Result<(), Error> {
        if !self.kitty_on_sale.contains_key(id) {
            Err(Error::NotOnSale)
        } else if !self.kitty_owner.contains_key(id) {
            Err(Error::InvalidKittyId)
        } else if self.kitty_owner[id] == who {
            Err(Error::AlreadyOwned)
        } else {
            transfer_outcome(funds, who, self.kitty_owner[id], self.kitty_price)
        }
    }

    /// The ledger after `who` buys asset `id`.
    pub open spec fn bought(self, who: AccountId, id: KittyId) -> PalletView {
        PalletView {
            kitty_owner: self.kitty_owner.insert(id, who),
            kitty_on_sale: self.kitty_on_sale.remove(id),
            events: self.events.push(Event::KittyBought { who, kitty_id: id }),
            ..self
        }
    }
}

/// The asset ledger and marketplace: genomes, owners, lineage and listings
/// keyed by asset identifier, with the identifier counter and the
/// notifications of every transition that succeeded.
pub struct Pallet {
    next_kitty_id: KittyId,
    kitties: HashMap<KittyId, Kitty>,
    kitty_owner: HashMap<KittyId, AccountId>,
    kitty_parents: HashMap<KittyId, (KittyId, KittyId)>,
    kitty_on_sale: HashMap<KittyId, AccountId>,
    events: Vec<Event>,
    kitty_price: Balance,
}

impl View for Pallet {
    type V = PalletView;

    closed spec fn view(&self) -> PalletView {
        PalletView {
            next_kitty_id: self.next_kitty_id,
            kitties: self.kitties@,
            kitty_owner: self.kitty_owner@,
            kitty_parents: self.kitty_parents@,
            kitty_on_sale: self.kitty_on_sale@,
            events: self.events@,
            kitty_price: self.kitty_price,
        }
    }
}

impl Pallet {
    /// The ledger's invariant.
    pub open spec fn wf(&self) -> bool {
        self@.wf()
    }

    /// The ledger at genesis: no assets, no listings, identifiers from 0, and
    /// `kitty_price` as the price of every purchase.
    pub fn new(kitty_price: Balance) -> (r: Pallet)
        ensures
            r.wf(),
            r@.next_kitty_id == 0,
            r@.kitties == Map::<KittyId, Kitty>::empty(),
            r@.kitty_owner == Map::<KittyId, AccountId>::empty(),
            r@.kitty_parents == Map::<KittyId, (KittyId, KittyId)>::empty(),
            r@.kitty_on_sale == Map::<KittyId, AccountId>::empty(),
            r@.events == Seq::<Event>::empty(),
            r@.kitty_price == kitty_price,
    {
        Pallet {
            next_kitty_id: 0,
            kitties: HashMap::new(),
            kitty_owner: HashMap::new(),
            kitty_parents: HashMap::new(),
            kitty_on_sale: HashMap::new(),
            events: Vec::new(),
            kitty_price,
        }
    }

    /// Allocates the next identifier, or fails with the counter unchanged.
    fn get_next_id(&mut self) -> (r: Result<KittyId, Error>)
        ensures
            r == old(self)@.allocation(),
            r is Ok ==> final(self)@ == (PalletView { next_kitty_id: (old(self)@.next_kitty_id + 1) as u32, ..old(self)@ }),
            r is Err ==> final(self)@ == old(self)@,
    {
        let current_id = self.next_kitty_id;
        if current_id == u32::MAX {
            return Err(Error::OutOfIds);
        }
        self.next_kitty_id = current_id + 1;
        Ok(current_id)
    }

    /// Gives `who` a new asset of genome `kitty` under the next identifier.
    pub fn create_with_genome(&mut self, who: AccountId, kitty: Kitty) -> (r: Result<KittyId, Error>)
        requires
            old(self).wf(),
        ensures
            final(self).wf(),
            r == old(self)@.create_outcome(),
            r is Ok ==> final(self)@ == old(self)@.created(who, kitty),
            r is Err ==> final(self)@ == old(self)@,
    {
        let kitty_id = match self.get_next_id() {
            Ok(id) => id,
            Err(_) => return Err(Error::InvalidKittyId),
        };
        self.kitties.insert(kitty_id, kitty);
        self.kitty_owner.insert(kitty_id, who);
        self.events.push(Event::KittyCreated { who, kitty_id, kitty });
        Ok(kitty_id)
    }

    /// Gives `who` a new asset whose genome is drawn from the request's
    /// entropy.
    pub fn create(&mut self, who: AccountId, e: &Entropy) -> (r: Result<KittyId, Error>)
        requires
            old(self).wf(),
        ensures
            final(self).wf(),
            r == old(self)@.create_outcome(),
            r matches Ok(id) ==> final(self)@ == old(self)@.created(who, final(self)@.kitties[id])
                && final(self)@.kitties[id].0@ == blake2_128_of(payload_of(*e, who)),
            r is Err ==> final(self)@ == old(self)@,
    {
        let kitty = Kitty(random_value(who, e));
        self.create_with_genome(who, kitty)
    }

    /// Breeds assets `a` and `b` into a new asset owned by `who`, whose
    /// genome takes each bit from `a` where `selector` has it set and from
    /// `b` elsewhere.
    pub fn breed_with_selector(&mut self, who: AccountId, a: KittyId, b: KittyId, selector: &[u8; 16]) -> (r: Result<KittyId, Error>)
        requires
            old(self).wf(),
        ensures
            final(self).wf(),
            r == old(self)@.breed_outcome(a, b),
            r matches Ok(id) ==> final(self)@ == old(self)@.bred(who, a, b, final(self)@.kitties[id])
                && final(self)@.kitties[id].0@ == crossover_of(
                    old(self)@.kitties[a].0@,
                    old(self)@.kitties[b].0@,
                    selector@,
                ),
            r is Err ==> final(self)@ == old(self)@,
    {
        if a == b {
            return Err(Error::SameKittyId);
        }
        let kitty_1 = match self.kitties.get(&a) {
            Some(k) => *k,
            None => return Err(Error::InvalidKittyId),
        };
        let kitty_2 = match self.kitties.get(&b) {
            Some(k) => *k,
            None => return Err(Error::InvalidKittyId),
        };
        let kitty_id = match self.get_next_id() {
            Ok(id) => id,
            Err(_) => return Err(Error::InvalidKittyId),
        };
        let kitty = crossover(&kitty_1, &kitty_2, selector);
        self.kitties.insert(kitty_id, kitty);
        self.kitty_owner.insert(kitty_id, who);
        self.kitty_parents.insert(kitty_id, (a, b));
        self.events.push(Event::KittyBreed { who, kitty_id, kitty });
        Ok(kitty_id)
    }

    /// Breeds assets `a` and `b` into a new asset owned by `who`, with a
    /// selection mask drawn from the request's entropy. The caller need not
    /// own either parent.
    pub fn breed(&mut self, who: AccountId, a: KittyId, b: KittyId, e: &Entropy) -> (r: Result<KittyId, Error>)
        requires
            old(self).wf(),
        ensures
            final(self).wf(),
            r == old(self)@.breed_outcome(a, b),
            r matches Ok(id) ==> final(self)@ == old(self)@.bred(who, a, b, final(self)@.kitties[id])
                && final(self)@.kitties[id].0@ == crossover_of(
                    old(self)@.kitties[a].0@,
                    old(self)@.kitties[b].0@,
                    blake2_128_of(payload_of(*e, who)),
                ),
            r is Err ==> final(self)@ == old(self)@,
    {
        let selector = random_value(who, e);
        self.breed_with_selector(who, a, b, &selector)
    }

    /// Hands asset `id` from its owner `who` to `to`. A listing of the asset
    /// is left as it is.
    pub fn transfer(&mut self, who: AccountId, to: AccountId, id: KittyId) -> (r: Result<(), Error>)
        requires
            old(self).wf(),
        ensures
            final(self).wf(),
            r == old(self)@.transfer_outcome(who, id),
            r is Ok ==> final(self)@ == old(self)@.transferred(who, to, id),
            r is Err ==> final(self)@ == old(self)@,
    {
        let owner = match self.kitty_owner.get(&id) {
            Some(o) => *o,
            None => return Err(Error::InvalidKittyId),
        };
        if owner != who {
            return Err(Error::NotOwner);
        }
        self.kitty_owner.insert(id, to);
        self.events.push(Event::KittyTransferred { from: who, to, kitty_id: id });
        assert(self@.kitties == old(self)@.kitties);
        assert(self@.kitty_parents == old(self)@.kitty_parents);
        assert(self@.kitty_on_sale == old(self)@.kitty_on_sale);
        assert(self@.kitties.dom() =~= self@.kitty_owner.dom());
        Ok(())
    }

    /// Lists asset `id` for sale by its owner `who`.
    pub fn sale(&mut self, who: AccountId, id: KittyId) -> (r: Result<(), Error>)
        requires
            old(self).wf(),
        ensures
            final(self).wf(),
            r == old(self)@.sale_outcome(who, id),
            r is Ok ==> final(self)@ == old(self)@.listed(who, id),
            r is Err ==> final(self)@ == old(self)@,
    {
        let owner = match self.kitty_owner.get(&id) {
            Some(o) => *o,
            None => return Err(Error::InvalidKittyId),
        };
        if owner != who {
            return Err(Error::NotOwner);
        }
        if self.kitty_on_sale.contains_key(&id) {
            return Err(Error::AlreadyOnSale);
        }
        self.kitty_on_sale.insert(id, who);
        self.events.push(Event::KittyOnSale { who, kitty_id: id });
        assert(self@.kitties == old(self)@.kitties);
        assert(self@.kitty_parents == old(self)@.kitty_parents);
        Ok(())
    }

    /// Buys listed asset `id` for `who`, paying the fixed price from `who` to
    /// the asset's owner through `funds`; the listing is cleared. On any
    /// failure neither the ledger nor the balances change.
    pub fn buy(&mut self, who: AccountId, id: KittyId, funds: &mut Balances) -> (r: Result<(), Error>)
        requires
            old(self).wf(),
        ensures
            final(self).wf(),
            r == old(self)@.buy_outcome(who, id, old(funds)@),
            r is Ok ==> final(self)@ == old(self)@.bought(who, id) && final(funds)@ == transferred(
                old(funds)@,
                who,
                old(self)@.kitty_owner[id],
                old(self)@.kitty_price,
            ),
            r is Err ==> final(self)@ == old(self)@ && final(funds)@ == old(funds)@,
    {
        if !self.kitty_on_sale.contains_key(&id) {
            return Err(Error::NotOnSale);
        }
        let owner = match self.kitty_owner.get(&id) {
            Some(o) => *o,
            None => return Err(Error::InvalidKittyId),
        };
        if owner == who {
            return Err(Error::AlreadyOwned);
        }
        match funds.transfer(who, owner, self.kitty_price) {
            Ok(()) => {},
            Err(e) => return Err(e),
        }
        self.kitty_on_sale.remove(&id);
        self.kitty_owner.insert(id, who);
        self.events.push(Event::KittyBought { who, kitty_id: id });
        assert(self@.kitties == old(self)@.kitties);
        assert(self@.kitty_parents == old(self)@.kitty_parents);
        assert(self@.kitties.dom() =~= self@.kitty_owner.dom());
        Ok(())
    }

    /// The smallest identifier not yet allocated.
    pub fn next_kitty_id(&self) -> (r: KittyId)
        ensures
            r == self@.next_kitty_id,
    {
        self.next_kitty_id
    }

    /// Moves the identifier counter forward to `id`, as a host may do when it
    /// seeds the ledger's storage.
    pub fn set_next_kitty_id(&mut self, id: KittyId)
        requires
            old(self).wf(),
            old(self)@.next_kitty_id <= id,
        ensures
            final(self).wf(),
            final(self)@ == (PalletView { next_kitty_id: id, ..old(self)@ }),
    {
        self.next_kitty_id = id;
    }

    /// The genome of asset `id`, if it exists.
    pub fn kitties(&self, id: KittyId) -> (r: Option<Kitty>)
        ensures
            r == (if self@.kitties.contains_key(id) { Some(self@.kitties[id]) } else { None::<Kitty> }),
    {
        match self.kitties.get(&id) {
            Some(k) => Some(*k),
            None => None,
        }
    }

    /// The owner of asset `id`, if it exists.
    pub fn kitty_owner(&self, id: KittyId) -> (r: Option<AccountId>)
        ensures
            r == (if self@.kitty_owner.contains_key(id) { Some(self@.kitty_owner[id]) } else { None::<AccountId> }),
    {
        match self.kitty_owner.get(&id) {
            Some(o) => Some(*o),
            None => None,
        }
    }

    /// The parents of asset `id`, if it was bred.
    pub fn kitty_parents(&self, id: KittyId) -> (r: Option<(KittyId, KittyId)>)
        ensures
            r == (if self@.kitty_parents.contains_key(id) {
                Some(self@.kitty_parents[id])
            } else {
                None::<(KittyId, KittyId)>
            }),
    {
        match self.kitty_parents.get(&id) {
            Some(p) => Some(*p),
            None => None,
        }
    }

    /// The account that listed asset `id`, if it is on sale.
    pub fn kitty_on_sale(&self, id: KittyId) -> (r: Option<AccountId>)
        ensures
            r == (if self@.kitty_on_sale.contains_key(id) { Some(self@.kitty_on_sale[id]) } else { None::<AccountId> }),
    {
        match self.kitty_on_sale.get(&id) {
            Some(o) => Some(*o),
            None => None,
        }
    }

    /// The fixed price of every purchase.
    pub fn kitty_price(&self) -> (r: Balance)
        ensures
            r == self@.kitty_price,
    {
        self.kitty_price
    }

    /// The notifications so far, oldest first.
    pub fn events(&self) -> (r: &Vec<Event>)
        ensures
            r@ == self@.events,
    {
        &self.events
    }
}

} // verus!
