use vstd::prelude::*;
use crate::address::Address;
use crate::fee::{fee_of, split_fee};
use crate::lookup::{find_from, index_of};
use crate::rating::{fold_rating, folded_average, valid_rating};
use crate::records::{byte_len, string_byte_len, Agent, AuthType, ErrorCode, Marketplace, Purchase, Skill};

verus! {

/// Longest agent name, in bytes.
pub const MAX_AGENT_NAME_LEN: usize = 32;

/// Longest skill name, in bytes.
pub const MAX_SKILL_NAME_LEN: usize = 64;

/// Longest metadata URI, in bytes.
pub const MAX_URI_LEN: usize = 200;

/// Longest skill identifier, in bytes.
pub const MAX_SKILL_ID_LEN: usize = 64;

/// Longest skill description, in bytes.
pub const MAX_DESCRIPTION_LEN: usize = 256;

/// Key of the agent record of `owner`.
pub open spec fn owned_by(owner: Seq<u8>) -> spec_fn(Agent) -> bool {
    |a: Agent| a.owner.bytes@ == owner
}

/// Key of the skill record listed under `id`.
pub open spec fn listed_as(id: Seq<char>) -> spec_fn(Skill) -> bool {
    |s: Skill| s.skill_id@ == id
}

/// Key of the purchase record of `buyer` for the skill `id`.
pub open spec fn bought_by(buyer: Seq<u8>, id: Seq<char>) -> spec_fn(Purchase) -> bool {
    |p: Purchase| p.buyer.bytes@ == buyer && p.skill_id@ == id
}

/// The amounts of a purchase that is about to be paid: the buyer pays `price`,
/// of which `seller_amount` goes to `seller` and `fee` to the treasury.
pub struct PurchaseQuote {
    pub price: u64,
    pub fee: u64,
    pub seller_amount: u64,
    pub seller: Address,
}

/// The record store of the marketplace: the registry singleton and the agent,
/// skill and purchase records, each set keyed by its identifying fields.
/// Creating a record whose key is already taken fails, which is what makes
/// each registration and each (buyer, skill) purchase unique.
pub struct SkillRegistry {
    pub marketplace: Option<Marketplace>,
    pub agents: Vec<Agent>,
    pub skills: Vec<Skill>,
    pub purchases: Vec<Purchase>,
}

impl SkillRegistry {
    /// The store's invariant: the configured fee rate is at most 5000 basis points.
    pub open spec fn wf(&self) -> bool {
        self.marketplace matches Some(m) ==> m.fee_bps <= 5000
    }

    /// Position of the agent record of `owner`, or -1.
    pub open spec fn agent_at(&self, owner: Seq<u8>) -> int {
        index_of(self.agents@, owned_by(owner))
    }

    /// Position of the skill record listed under `id`, or -1.
    pub open spec fn skill_at(&self, id: Seq<char>) -> int {
        index_of(self.skills@, listed_as(id))
    }

    /// Position of the purchase record of `buyer` for the skill `id`, or -1.
    pub open spec fn purchase_at(&self, buyer: Seq<u8>, id: Seq<char>) -> int {
        index_of(self.purchases@, bought_by(buyer, id))
    }

    /// An empty store: no marketplace and no records.
    pub fn new() -> (r: SkillRegistry)
        ensures
            r.wf(),
            r.marketplace is None,
            r.agents@.len() == 0,
            r.skills@.len() == 0,
            r.purchases@.len() == 0,
    {
        SkillRegistry { marketplace: None, agents: Vec::new(), skills: Vec::new(), purchases: Vec::new() }
    }

    /// Finds the agent record of `owner`.
    pub fn find_agent(&self, owner: &Address) -> (r: Option<usize>)
        ensures
            r matches Some(i) ==> i == self.agent_at(owner.bytes@) && i < self.agents@.len()
                && self.agents@[i as int].owner.bytes@ == owner.bytes@,
            r is None <==> self.agent_at(owner.bytes@) == -1,
    {
        let mut i: usize = 0;
        while i < self.agents.len()
            invariant
                0 <= i <= self.agents@.len(),
                find_from(self.agents@, owned_by(owner.bytes@), i as int) == self.agent_at(
                    owner.bytes@,
                ),
            decreases self.agents@.len() - i,
        {
            if self.agents[i].owner.same_as(owner) {
                return Some(i);
            }
            i = i + 1;
        }
        None
    }

    /// Finds the skill record listed under `id`.
    pub fn find_skill(&self, id: &String) -> (r: Option<usize>)
        ensures
            r matches Some(i) ==> i == self.skill_at(id@) && i < self.skills@.len()
                && self.skills@[i as int].skill_id@ == id@,
            r is None <==> self.skill_at(id@) == -1,
    {
        let mut i: usize = 0;
        while i < self.skills.len()
            invariant
                0 <= i <= self.skills@.len(),
                find_from(self.skills@, listed_as(id@), i as int) == self.skill_at(id@),
            decreases self.skills@.len() - i,
        {
            if self.skills[i].skill_id == *id {
                return Some(i);
            }
            i = i + 1;
        }
        None
    }

    /// Finds the purchase record of `buyer` for the skill `id`.
    pub fn find_purchase(&self, buyer: &Address, id: &String) -> (r: Option<usize>)
        ensures
            r matches Some(i) ==> i == self.purchase_at(buyer.bytes@, id@) && i
                < self.purchases@.len() && self.purchases@[i as int].buyer.bytes@ == buyer.bytes@
                && self.purchases@[i as int].skill_id@ == id@,
            r is None <==> self.purchase_at(buyer.bytes@, id@) == -1,
    {
        let mut i: usize = 0;
        while i < self.purchases.len()
            invariant
                0 <= i <= self.purchases@.len(),
                find_from(self.purchases@, bought_by(buyer.bytes@, id@), i as int)
                    == self.purchase_at(buyer.bytes@, id@),
            decreases self.purchases@.len() - i,
        {
            if self.purchases[i].buyer.same_as(buyer) && self.purchases[i].skill_id == *id {
                return Some(i);
            }
            i = i + 1;
        }
        None
    }

    /// The agent record of `owner`, if any.
    pub fn agent(&self, owner: &Address) -> (r: Option<&Agent>)
        ensures
            self.agent_at(owner.bytes@) == -1 ==> r is None,
            self.agent_at(owner.bytes@) != -1 ==> r == Some(&self.agents@[self.agent_at(owner.bytes@)]),
    {
        match self.find_agent(owner) {
            Some(i) => Some(&self.agents[i]),
            None => None,
        }
    }

    /// The skill record listed under `id`, if any.
    pub fn skill(&self, id: &String) -> (r: Option<&Skill>)
        ensures
            self.skill_at(id@) == -1 ==> r is None,
            self.skill_at(id@) != -1 ==> r == Some(&self.skills@[self.skill_at(id@)]),
    {
        match self.find_skill(id) {
            Some(i) => Some(&self.skills[i]),
            None => None,
        }
    }

    /// The purchase record of `buyer` for the skill `id`, if any.
    pub fn purchase(&self, buyer: &Address, id: &String) -> (r: Option<&Purchase>)
        ensures
            self.purchase_at(buyer.bytes@, id@) == -1 ==> r is None,
            self.purchase_at(buyer.bytes@, id@) != -1 ==> r == Some(
                &self.purchases@[self.purchase_at(buyer.bytes@, id@)],
            ),
    {
        match self.find_purchase(buyer, id) {
            Some(i) => Some(&self.purchases[i]),
            None => None,
        }
    }

    /// Creates the marketplace singleton with zeroed counters.
    ///
    /// Fails with `AlreadyExists` when it already exists, else with
    /// `FeeTooHigh` when the rate is above 5000 basis points.
    pub fn initialize_marketplace(&mut self, authority: Address, fee_bps: u16) -> (r: Result<(), ErrorCode>)
        requires
            old(self).wf(),
        ensures
            final(self).wf(),
            old(self).marketplace is Some ==> r == Err::<(), ErrorCode>(ErrorCode::AlreadyExists),
            old(self).marketplace is None && fee_bps > 5000 ==> r == Err::<(), ErrorCode>(
                ErrorCode::FeeTooHigh,
            ),
            old(self).marketplace is None && fee_bps <= 5000 ==> r is Ok,
            r is Err ==> *final(self) == *old(self),
            r is Ok ==> final(self).marketplace == Some(
                Marketplace {
                    authority,
                    fee_bps,
                    total_skills: 0,
                    total_purchases: 0,
                    total_volume_usdc: 0,
                },
            ) && final(self).agents == old(self).agents && final(self).skills == old(self).skills
                && final(self).purchases == old(self).purchases,
    {
        if self.marketplace.is_some() {
            return Err(ErrorCode::AlreadyExists);
        }
        if fee_bps > crate::fee::MAX_FEE_BPS {
            return Err(ErrorCode::FeeTooHigh);
        }
        self.marketplace = Some(
            Marketplace { authority, fee_bps, total_skills: 0, total_purchases: 0, total_volume_usdc: 0 },
        );
        Ok(())
    }

    /// Creates the agent record of `owner` with zeroed counters.
    ///
    /// Fails with `AlreadyExists` when `owner` already has one, else with
    /// `NameTooLong` or `UriTooLong` when a field is over its bound.
    pub fn register_agent(
        &mut self,
        owner: Address,
        name: String,
        metadata_uri: String,
        now: i64,
    ) -> (r: Result<(), ErrorCode>)
        requires
            old(self).wf(),
        ensures
            final(self).wf(),
            old(self).agent_at(owner.bytes@) != -1 ==> r == Err::<(), ErrorCode>(
                ErrorCode::AlreadyExists,
            ),
            old(self).agent_at(owner.bytes@) == -1 && byte_len(name) > 32 ==> r == Err::<
                (),
                ErrorCode,
            >(ErrorCode::NameTooLong),
            old(self).agent_at(owner.bytes@) == -1 && byte_len(name) <= 32 && byte_len(
                metadata_uri,
            ) > 200 ==> r == Err::<(), ErrorCode>(ErrorCode::UriTooLong),
            old(self).agent_at(owner.bytes@) == -1 && byte_len(name) <= 32 && byte_len(
                metadata_uri,
            ) <= 200 ==> r is Ok,
            r is Err ==> *final(self) == *old(self),
            r is Ok ==> final(self).agents@ == old(self).agents@.push(
                Agent {
                    owner,
                    name,
                    metadata_uri,
                    skills_published: 0,
                    skills_sold: 0,
                    total_earnings: 0,
                    reputation_score: 0,
                    total_ratings: 0,
                    created_at: now,
                },
            ) && final(self).marketplace == old(self).marketplace && final(self).skills == old(
                self,
            ).skills && final(self).purchases == old(self).purchases,
    {
        if self.find_agent(&owner).is_some() {
            return Err(ErrorCode::AlreadyExists);
        }
        if string_byte_len(&name) > MAX_AGENT_NAME_LEN {
            return Err(ErrorCode::NameTooLong);
        }
        if string_byte_len(&metadata_uri) > MAX_URI_LEN {
            return Err(ErrorCode::UriTooLong);
        }
        self.agents.push(
            Agent {
                owner,
                name,
                metadata_uri,
                skills_published: 0,
                skills_sold: 0,
                total_earnings: 0,
                reputation_score: 0,
                total_ratings: 0,
                created_at: now,
            },
        );
        Ok(())
    }

    /// What registering the skill `skill_id` for `publisher` yields, checked in
    /// order: the publisher's agent record and the marketplace must exist, the
    /// identifier must be free, then the field bounds, the price and the counters.
    pub open spec fn register_skill_outcome(
        &self,
        publisher: Seq<u8>,
        skill_id: String,
        name: String,
        description: String,
        price_usdc: u64,
        metadata_uri: String,
    ) -> Result<(), ErrorCode> {
        if self.agent_at(publisher) == -1 || self.marketplace is None {
            Err(ErrorCode::NotFound)
        } else if self.skill_at(skill_id@) != -1 {
            Err(ErrorCode::AlreadyExists)
        } else if byte_len(skill_id) > 64 {
            Err(ErrorCode::SkillIdTooLong)
        } else if byte_len(name) > 64 {
            Err(ErrorCode::NameTooLong)
        } else if byte_len(description) > 256 {
            Err(ErrorCode::DescriptionTooLong)
        } else if byte_len(metadata_uri) > 200 {
            Err(ErrorCode::UriTooLong)
        } else if price_usdc == 0 {
            Err(ErrorCode::PriceMustBePositive)
        } else if self.agents@[self.agent_at(publisher)].skills_published == u64::MAX
            || self.marketplace->Some_0.total_skills == u64::MAX {
            Err(ErrorCode::Overflow)
        } else {
            Ok(())
        }
    }

    /// Lists a new skill for `publisher`, counting it on the publisher's agent
    /// record and on the marketplace. The new listing is active, unrated and
    /// has no sales.
    pub fn register_skill(
        &mut self,
        publisher: Address,
        skill_id: String,
        name: String,
        description: String,
        endpoint_count: u16,
        auth_type: AuthType,
        price_usdc: u64,
        metadata_uri: String,
        now: i64,
    ) -> (r: Result<(), ErrorCode>)
        requires
            old(self).wf(),
        ensures
            final(self).wf(),
            r == old(self).register_skill_outcome(
                publisher.bytes@,
                skill_id,
                name,
                description,
                price_usdc,
                metadata_uri,
            ),
            r is Err ==> *final(self) == *old(self),
            r is Ok ==> {
                let ai = old(self).agent_at(publisher.bytes@);
                let a = old(self).agents@[ai];
                let m = old(self).marketplace->Some_0;
                &&& final(self).skills@.len() == old(self).skills@.len() + 1
                &&& final(self).skills@.drop_last() == old(self).skills@
                &&& final(self).skills@.last().publisher == publisher
                &&& final(self).skills@.last().agent == publisher
                &&& final(self).skills@.last().skill_id == skill_id
                &&& final(self).skills@.last().name == name
                &&& final(self).skills@.last().description == description
                &&& final(self).skills@.last().endpoint_count == endpoint_count
                &&& final(self).skills@.last().auth_type == auth_type
                &&& final(self).skills@.last().price_usdc == price_usdc
                &&& final(self).skills@.last().metadata_uri == metadata_uri
                &&& final(self).skills@.last().total_purchases == 0
                &&& final(self).skills@.last().total_revenue == 0
                &&& final(self).skills@.last().avg_rating == 0
                &&& final(self).skills@.last().total_ratings == 0
                &&& final(self).skills@.last().is_active
                &&& final(self).skills@.last().created_at == now
                &&& final(self).skills@.last().updated_at == now
                &&& final(self).agents@ == old(self).agents@.update(
                    ai,
                    Agent { skills_published: (a.skills_published + 1) as u64, ..a },
                )
                &&& final(self).marketplace == Some(
                    Marketplace { total_skills: (m.total_skills + 1) as u64, ..m },
                )
                &&& final(self).purchases == old(self).purchases
            },
    {
        let ai = match self.find_agent(&publisher) {
            Some(i) => i,
            None => return Err(ErrorCode::NotFound),
        };
        if self.marketplace.is_none() {
            return Err(ErrorCode::NotFound);
        }
        if self.find_skill(&skill_id).is_some() {
            return Err(ErrorCode::AlreadyExists);
        }
        if string_byte_len(&skill_id) > MAX_SKILL_ID_LEN {
            return Err(ErrorCode::SkillIdTooLong);
        }
        if string_byte_len(&name) > MAX_SKILL_NAME_LEN {
            return Err(ErrorCode::NameTooLong);
        }
        if string_byte_len(&description) > MAX_DESCRIPTION_LEN {
            return Err(ErrorCode::DescriptionTooLong);
        }
        if string_byte_len(&metadata_uri) > MAX_URI_LEN {
            return Err(ErrorCode::UriTooLong);
        }
        if price_usdc == 0 {
            return Err(ErrorCode::PriceMustBePositive);
        }
        let published = self.agents[ai].skills_published;
        let total_skills = match &self.marketplace {
            Some(m) => m.total_skills,
            None => return Err(ErrorCode::NotFound),
        };
        if published == u64::MAX || total_skills == u64::MAX {
            return Err(ErrorCode::Overflow);
        }
        let agent_key = publisher.clone();
        self.skills.push(
            Skill {
                publisher,
                agent: agent_key,
                skill_id,
                name,
                description,
                endpoint_count,
                auth_type,
                price_usdc,
                metadata_uri,
                total_purchases: 0,
                total_revenue: 0,
                avg_rating: 0,
                total_ratings: 0,
                is_active: true,
                created_at: now,
                updated_at: now,
            },
        );
        self.agents[ai].skills_published = published + 1;
        if let Some(m) = &mut self.marketplace {
            m.total_skills = total_skills + 1;
        }
        Ok(())
    }

    /// The skill record listed under `id` (meaningful when it exists).
    pub open spec fn skill_of(&self, id: Seq<char>) -> Skill {
        self.skills@[self.skill_at(id)]
    }

    /// Position of the agent record of the publisher of the skill `id`, or -1.
    pub open spec fn seller_at(&self, id: Seq<char>) -> int {
        self.agent_at(self.skill_of(id).publisher.bytes@)
    }

    /// The quote a purchase of the skill `id` is made at (meaningful when it is allowed).
    pub open spec fn quote_of(&self, id: Seq<char>) -> (u64, u64) {
        let price = self.skill_of(id).price_usdc;
        let fee = fee_of(price as nat, self.marketplace->Some_0.fee_bps as nat);
        (fee as u64, (price - fee) as u64)
    }

    /// Whether `buyer` may purchase the skill `id`, checked in order: the
    /// marketplace and the skill must exist, the skill must be active, its
    /// publisher's agent record must exist, the buyer must not own a purchase
    /// of it yet, and no counter that the purchase raises may overflow.
    pub open spec fn purchase_outcome(&self, buyer: Seq<u8>, id: Seq<char>) -> Result<(), ErrorCode> {
        let s = self.skill_of(id);
        let a = self.agents@[self.seller_at(id)];
        let m = self.marketplace->Some_0;
        let (fee, seller_amount) = self.quote_of(id);
        if self.marketplace is None || self.skill_at(id) == -1 {
            Err(ErrorCode::NotFound)
        } else if !s.is_active {
            Err(ErrorCode::SkillNotActive)
        } else if self.seller_at(id) == -1 {
            Err(ErrorCode::NotFound)
        } else if self.purchase_at(buyer, id) != -1 {
            Err(ErrorCode::AlreadyExists)
        } else if s.total_purchases == u64::MAX || s.total_revenue + s.price_usdc > u64::MAX
            || a.skills_sold == u64::MAX || a.total_earnings + seller_amount > u64::MAX
            || m.total_purchases == u64::MAX || m.total_volume_usdc + s.price_usdc > u64::MAX {
            Err(ErrorCode::Overflow)
        } else {
            Ok(())
        }
    }

    /// `after` is `before` with the purchase of the skill `skill_id` by `buyer`
    /// recorded at time `now`: the purchase was allowed, its record was
    /// created unrated, and the sales counters of the skill, of its seller and
    /// of the marketplace were raised by one sale of its price.
    pub open spec fn purchase_step(
        before: SkillRegistry,
        after: SkillRegistry,
        buyer: Address,
        skill_id: String,
        now: i64,
    ) -> bool {
        let si = before.skill_at(skill_id@);
        let s = before.skills@[si];
        let ai = before.seller_at(skill_id@);
        let a = before.agents@[ai];
        let m = before.marketplace->Some_0;
        let (fee, seller_amount) = before.quote_of(skill_id@);
        &&& before.purchase_outcome(buyer.bytes@, skill_id@) is Ok
        &&& after.purchases@ == before.purchases@.push(
            Purchase {
                buyer,
                skill_id,
                price_paid: s.price_usdc,
                fee_paid: fee,
                purchased_at: now,
                rating: 0,
            },
        )
        &&& after.skills@ == before.skills@.update(
            si,
            Skill {
                total_purchases: (s.total_purchases + 1) as u64,
                total_revenue: (s.total_revenue + s.price_usdc) as u64,
                ..s
            },
        )
        &&& after.agents@ == before.agents@.update(
            ai,
            Agent {
                skills_sold: (a.skills_sold + 1) as u64,
                total_earnings: (a.total_earnings + seller_amount) as u64,
                ..a
            },
        )
        &&& after.marketplace == Some(
            Marketplace {
                total_purchases: (m.total_purchases + 1) as u64,
                total_volume_usdc: (m.total_volume_usdc + s.price_usdc) as u64,
                ..m
            },
        )
    }

    /// Checks a purchase of the skill `skill_id` by `buyer` and returns what
    /// must be transferred for it, changing nothing.
    pub fn quote_purchase(&self, buyer: &Address, skill_id: &String) -> (r: Result<
        PurchaseQuote,
        ErrorCode,
    >)
        requires
            self.wf(),
        ensures
            r matches Err(e) ==> self.purchase_outcome(buyer.bytes@, skill_id@) == Err::<
                (),
                ErrorCode,
            >(e),
            r is Ok <==> self.purchase_outcome(buyer.bytes@, skill_id@) is Ok,
            r matches Ok(q) ==> q.price == self.skill_of(skill_id@).price_usdc && q.fee
                == self.quote_of(skill_id@).0 && q.seller_amount == self.quote_of(skill_id@).1
                && q.fee + q.seller_amount == q.price && q.seller == self.skill_of(
                skill_id@,
            ).publisher,
    {
        let fee_bps = match &self.marketplace {
            Some(m) => m.fee_bps,
            None => return Err(ErrorCode::NotFound),
        };
        let si = match self.find_skill(skill_id) {
            Some(i) => i,
            None => return Err(ErrorCode::NotFound),
        };
        if !self.skills[si].is_active {
            return Err(ErrorCode::SkillNotActive);
        }
        let ai = match self.find_agent(&self.skills[si].publisher) {
            Some(i) => i,
            None => return Err(ErrorCode::NotFound),
        };
        if self.find_purchase(buyer, skill_id).is_some() {
            return Err(ErrorCode::AlreadyExists);
        }
        let price = self.skills[si].price_usdc;
        let (fee, seller_amount) = split_fee(price, fee_bps);
        let s = &self.skills[si];
        let a = &self.agents[ai];
        let overflow = match &self.marketplace {
            Some(m) => s.total_purchases == u64::MAX || s.total_revenue > u64::MAX - price
                || a.skills_sold == u64::MAX || a.total_earnings > u64::MAX - seller_amount
                || m.total_purchases == u64::MAX || m.total_volume_usdc > u64::MAX - price,
            None => true,
        };
        if overflow {
            return Err(ErrorCode::Overflow);
        }
        Ok(PurchaseQuote { price, fee, seller_amount, seller: s.publisher.clone() })
    }

    /// Records the purchase of the skill `skill_id` by `buyer`, once the token
    /// transfers of its quote have been made; `transfers_succeeded` reports
    /// whether they went through. Creates the purchase record, unrated, and
    /// raises the sales counters of the skill, of its seller and of the
    /// marketplace. When the purchase is refused, or the transfers failed
    /// (`TransferFailed`), nothing changes.
    pub fn purchase_skill(
        &mut self,
        buyer: Address,
        skill_id: String,
        now: i64,
        transfers_succeeded: bool,
    ) -> (r: Result<PurchaseQuote, ErrorCode>)
        requires
            old(self).wf(),
        ensures
            final(self).wf(),
            old(self).purchase_outcome(buyer.bytes@, skill_id@) matches Err(e) ==> r == Err::<
                PurchaseQuote,
                ErrorCode,
            >(e),
            old(self).purchase_outcome(buyer.bytes@, skill_id@) is Ok && !transfers_succeeded
                ==> r == Err::<PurchaseQuote, ErrorCode>(ErrorCode::TransferFailed),
            old(self).purchase_outcome(buyer.bytes@, skill_id@) is Ok && transfers_succeeded
                ==> r is Ok,
            r is Err ==> *final(self) == *old(self),
            r matches Ok(q) ==> q.price == old(self).skill_of(skill_id@).price_usdc && q.fee
                == old(self).quote_of(skill_id@).0 && q.seller_amount == old(self).quote_of(
                skill_id@,
            ).1 && q.seller == old(self).skill_of(skill_id@).publisher,
            r is Ok ==> Self::purchase_step(*old(self), *final(self), buyer, skill_id, now),
    {
        let ghost before = *self;
        let q = match self.quote_purchase(&buyer, &skill_id) {
            Ok(q) => q,
            Err(e) => return Err(e),
        };
        if !transfers_succeeded {
            return Err(ErrorCode::TransferFailed);
        }
        let si = match self.find_skill(&skill_id) {
            Some(i) => i,
            None => return Err(ErrorCode::NotFound),
        };
        let ai = match self.find_agent(&q.seller) {
            Some(i) => i,
            None => return Err(ErrorCode::NotFound),
        };
        let skill_purchases = self.skills[si].total_purchases;
        let skill_revenue = self.skills[si].total_revenue;
        let sold = self.agents[ai].skills_sold;
        let earnings = self.agents[ai].total_earnings;
        self.skills[si].total_purchases = skill_purchases + 1;
        self.skills[si].total_revenue = skill_revenue + q.price;
        self.agents[ai].skills_sold = sold + 1;
        self.agents[ai].total_earnings = earnings + q.seller_amount;
        if let Some(m) = &mut self.marketplace {
            m.total_purchases = m.total_purchases + 1;
            m.total_volume_usdc = m.total_volume_usdc + q.price;
        }
        self.purchases.push(
            Purchase {
                buyer,
                skill_id,
                price_paid: q.price,
                fee_paid: q.fee,
                purchased_at: now,
                rating: 0,
            },
        );
        proof {
            let s0 = before.skills@[si as int];
            let a0 = before.agents@[ai as int];
            assert(self.skills@ =~= before.skills@.update(
                si as int,
                Skill {
                    total_purchases: (s0.total_purchases + 1) as u64,
                    total_revenue: (s0.total_revenue + s0.price_usdc) as u64,
                    ..s0
                },
            ));
            assert(self.agents@ =~= before.agents@.update(
                ai as int,
                Agent {
                    skills_sold: (a0.skills_sold + 1) as u64,
                    total_earnings: (a0.total_earnings + q.seller_amount) as u64,
                    ..a0
                },
            ));
        }
        Ok(q)
    }

    /// What rating the purchase of `buyer` for the skill `id` with `rating`
    /// on behalf of `caller` yields, checked in order: the purchase must exist
    /// and belong to the caller, the skill and its seller's agent record must
    /// exist, the rating must be 1..=5, the purchase must be unrated, and the
    /// rating counts must not overflow.
    pub open spec fn rate_outcome(
        &self,
        caller: Seq<u8>,
        buyer: Seq<u8>,
        id: Seq<char>,
        rating: u8,
    ) -> Result<(), ErrorCode> {
        let p = self.purchases@[self.purchase_at(buyer, id)];
        if self.purchase_at(buyer, id) == -1 {
            Err(ErrorCode::NotFound)
        } else if caller != p.buyer.bytes@ {
            Err(ErrorCode::Unauthorized)
        } else if self.skill_at(id) == -1 || self.seller_at(id) == -1 {
            Err(ErrorCode::NotFound)
        } else if !valid_rating(rating as nat) {
            Err(ErrorCode::InvalidRating)
        } else if p.rating != 0 {
            Err(ErrorCode::AlreadyRated)
        } else if self.skill_of(id).total_ratings == u64::MAX || self.agents@[self.seller_at(
            id,
        )].total_ratings == u64::MAX {
            Err(ErrorCode::Overflow)
        } else {
            Ok(())
        }
    }

    /// `after` is `before` with the purchase of `buyer` for the skill `id`
    /// rated `rating`: the rating was allowed, written on the purchase, and
    /// folded into the averages of the skill and of its seller.
    pub open spec fn rate_step(
        before: SkillRegistry,
        after: SkillRegistry,
        buyer: Seq<u8>,
        id: Seq<char>,
        rating: u8,
    ) -> bool {
        let pi = before.purchase_at(buyer, id);
        let p = before.purchases@[pi];
        let si = before.skill_at(id);
        let s = before.skills@[si];
        let ai = before.seller_at(id);
        let a = before.agents@[ai];
        &&& after.purchases@ == before.purchases@.update(
            pi,
            Purchase { rating, ..p },
        )
        &&& after.skills@ == before.skills@.update(
            si,
            Skill {
                avg_rating: folded_average(
                    s.avg_rating as nat,
                    s.total_ratings as nat,
                    rating as nat,
                ) as u8,
                total_ratings: (s.total_ratings + 1) as u64,
                ..s
            },
        )
        &&& after.agents@ == before.agents@.update(
            ai,
            Agent {
                reputation_score: folded_average(
                    a.reputation_score as nat,
                    a.total_ratings as nat,
                    rating as nat,
                ) as u8,
                total_ratings: (a.total_ratings + 1) as u64,
                ..a
            },
        )
        &&& after.marketplace == before.marketplace
    }

    /// Rates the purchase of `buyer` for the skill `skill_id`, on behalf of
    /// `caller`. The rating is written once, and folded into the running
    /// integer averages of the skill and of its seller's reputation.
    pub fn rate_skill(&mut self, caller: &Address, buyer: &Address, skill_id: &String, rating: u8) -> (r:
        Result<(), ErrorCode>)
        requires
            old(self).wf(),
        ensures
            final(self).wf(),
            r == old(self).rate_outcome(caller.bytes@, buyer.bytes@, skill_id@, rating),
            r is Err ==> *final(self) == *old(self),
            r is Ok ==> Self::rate_step(*old(self), *final(self), buyer.bytes@, skill_id@, rating),
    {
        let ghost before = *self;
        let pi = match self.find_purchase(buyer, skill_id) {
            Some(i) => i,
            None => return Err(ErrorCode::NotFound),
        };
        if !self.purchases[pi].buyer.same_as(caller) {
            return Err(ErrorCode::Unauthorized);
        }
        let si = match self.find_skill(skill_id) {
            Some(i) => i,
            None => return Err(ErrorCode::NotFound),
        };
        let ai = match self.find_agent(&self.skills[si].publisher) {
            Some(i) => i,
            None => return Err(ErrorCode::NotFound),
        };
        if rating < crate::rating::MIN_RATING || rating > crate::rating::MAX_RATING {
            return Err(ErrorCode::InvalidRating);
        }
        if self.purchases[pi].rating != 0 {
            return Err(ErrorCode::AlreadyRated);
        }
        let skill_fold = fold_rating(self.skills[si].avg_rating, self.skills[si].total_ratings, rating);
        let agent_fold = fold_rating(
            self.agents[ai].reputation_score,
            self.agents[ai].total_ratings,
            rating,
        );
        let (skill_avg, skill_count, agent_avg, agent_count) = match (skill_fold, agent_fold) {
            (Ok(sf), Ok(af)) => (sf.0, sf.1, af.0, af.1),
            _ => return Err(ErrorCode::Overflow),
        };
        self.purchases[pi].rating = rating;
        self.skills[si].avg_rating = skill_avg;
        self.skills[si].total_ratings = skill_count;
        self.agents[ai].reputation_score = agent_avg;
        self.agents[ai].total_ratings = agent_count;
        proof {
            let p0 = before.purchases@[pi as int];
            let s0 = before.skills@[si as int];
            let a0 = before.agents@[ai as int];
            assert(self.purchases@ =~= before.purchases@.update(pi as int, Purchase { rating, ..p0 }));
            assert(self.skills@ =~= before.skills@.update(
                si as int,
                Skill { avg_rating: skill_avg, total_ratings: skill_count, ..s0 },
            ));
            assert(self.agents@ =~= before.agents@.update(
                ai as int,
                Agent { reputation_score: agent_avg, total_ratings: agent_count, ..a0 },
            ));
        }
        Ok(())
    }

    /// What a change by `caller` to the skill `id` yields: the skill must
    /// exist and `caller` must be its publisher.
    pub open spec fn publisher_outcome(&self, caller: Seq<u8>, id: Seq<char>) -> Result<(), ErrorCode> {
        if self.skill_at(id) == -1 {
            Err(ErrorCode::NotFound)
        } else if caller != self.skill_of(id).publisher.bytes@ {
            Err(ErrorCode::Unauthorized)
        } else {
            Ok(())
        }
    }

    /// Sets the price of the skill `skill_id`; only its publisher may, and the
    /// new price must be positive.
    pub fn update_skill_price(&mut self, caller: &Address, skill_id: &String, new_price: u64, now: i64) -> (r:
        Result<(), ErrorCode>)
        requires
            old(self).wf(),
        ensures
            final(self).wf(),
            old(self).publisher_outcome(caller.bytes@, skill_id@) matches Err(e) ==> r == Err::<
                (),
                ErrorCode,
            >(e),
            old(self).publisher_outcome(caller.bytes@, skill_id@) is Ok && new_price == 0 ==> r
                == Err::<(), ErrorCode>(ErrorCode::PriceMustBePositive),
            old(self).publisher_outcome(caller.bytes@, skill_id@) is Ok && new_price > 0 ==> r is Ok,
            r is Err ==> *final(self) == *old(self),
            r is Ok ==> {
                let si = old(self).skill_at(skill_id@);
                let s = old(self).skills@[si];
                &&& final(self).skills@ == old(self).skills@.update(
                    si,
                    Skill { price_usdc: new_price, updated_at: now, ..s },
                )
                &&& final(self).agents == old(self).agents
                &&& final(self).purchases == old(self).purchases
                &&& final(self).marketplace == old(self).marketplace
            },
    {
        let si = match self.find_skill(skill_id) {
            Some(i) => i,
            None => return Err(ErrorCode::NotFound),
        };
        if !self.skills[si].publisher.same_as(caller) {
            return Err(ErrorCode::Unauthorized);
        }
        if new_price == 0 {
            return Err(ErrorCode::PriceMustBePositive);
        }
        self.skills[si].price_usdc = new_price;
        self.skills[si].updated_at = now;
        Ok(())
    }

    /// `after` is `before` with the skill `id` withdrawn from sale at time `now`.
    pub open spec fn deactivate_step(before: SkillRegistry, after: SkillRegistry, id: Seq<char>, now: i64) -> bool {
        let si = before.skill_at(id);
        let s = before.skills@[si];
        &&& si != -1
        &&& after.skills@ == before.skills@.update(si, Skill { is_active: false, updated_at: now, ..s })
        &&& after.agents == before.agents
        &&& after.purchases == before.purchases
        &&& after.marketplace == before.marketplace
    }

    /// Withdraws the skill `skill_id` from sale; only its publisher may.
    /// Deactivating an inactive skill succeeds and only moves `updated_at`.
    pub fn deactivate_skill(&mut self, caller: &Address, skill_id: &String, now: i64) -> (r: Result<
        (),
        ErrorCode,
    >)
        requires
            old(self).wf(),
        ensures
            final(self).wf(),
            r == old(self).publisher_outcome(caller.bytes@, skill_id@),
            r is Err ==> *final(self) == *old(self),
            r is Ok ==> Self::deactivate_step(*old(self), *final(self), skill_id@, now),
    {
        let si = match self.find_skill(skill_id) {
            Some(i) => i,
            None => return Err(ErrorCode::NotFound),
        };
        if !self.skills[si].publisher.same_as(caller) {
            return Err(ErrorCode::Unauthorized);
        }
        let ghost before = *self;
        self.skills[si].is_active = false;
        self.skills[si].updated_at = now;
        proof {
            let s0 = before.skills@[si as int];
            assert(self.skills@ =~= before.skills@.update(
                si as int,
                Skill { is_active: false, updated_at: now, ..s0 },
            ));
        }
        Ok(())
    }
}

} // verus!
