//! Creating and editing the records of the register. New records get the
//! id after the largest one of their table.
use crate::database::{fee_lookup, Database};
use crate::guard::find_member;
use crate::models::{
    copy_address, copy_household, copy_member, copy_organization, copy_text, Address, CreateAddress,
    CreateHousehold, CreateMember, CreateMembershipFee, CreateOrganization, DbError, Household,
    Member, MembershipFee, Organization,
};
use vstd::prelude::*;

verus! {

/// The largest of `ids`, or zero where none is positive.
pub open spec fn max_id(ids: Seq<i64>) -> int
    decreases ids.len(),
{
    if ids.len() == 0 {
        0
    } else {
        let rest = max_id(ids.drop_last());
        if ids.last() > rest {
            ids.last() as int
        } else {
            rest
        }
    }
}

/// The id after the largest of `ids`, where it fits an `i64`.
fn next_id(ids: &Vec<i64>) -> (r: Option<i64>)
    ensures
        match r {
            Some(id) => id == max_id(ids@) + 1,
            None => max_id(ids@) + 1 > i64::MAX,
        },
{
    let mut i: usize = 0;
    let mut m: i64 = 0;
    while i < ids.len()
        invariant
            i <= ids@.len(),
            m == max_id(ids@.subrange(0, i as int)),
        decreases ids@.len() - i,
    {
        assert(ids@.subrange(0, i + 1).drop_last() =~= ids@.subrange(0, i as int));
        if ids[i] > m {
            m = ids[i];
        }
        i = i + 1;
    }
    assert(ids@.subrange(0, i as int) =~= ids@);
    if m == i64::MAX {
        None
    } else {
        Some(m + 1)
    }
}

/// The member that `data` describes, under the id `id`.
pub open spec fn member_from(id: i64, data: CreateMember) -> Member {
    Member {
        id,
        etunimi: data.etunimi,
        sukunimi: data.sukunimi,
        henkilotunnus: data.henkilotunnus,
        syntymaaika: data.syntymaaika,
        puhelinnumero: data.puhelinnumero,
        sahkoposti: data.sahkoposti,
        osoite_id: data.osoite_id,
        liittymispaiva: data.liittymispaiva,
        jasentyyppi: data.jasentyyppi,
        aktiivinen: data.aktiivinen,
    }
}

/// The household that `data` describes, under the id `id`.
pub open spec fn household_from(id: i64, data: CreateHousehold) -> Household {
    Household {
        id,
        talouden_nimi: data.talouden_nimi,
        vastaanottaja: data.vastaanottaja,
        laskutusosoite_sama: data.laskutusosoite_sama,
        laskutusosoite_id: data.laskutusosoite_id,
    }
}

/// The address that `data` describes, under the id `id`.
pub open spec fn address_from(id: i64, data: CreateAddress) -> Address {
    Address {
        id,
        katuosoite: data.katuosoite,
        postinumero: data.postinumero,
        postitoimipaikka: data.postitoimipaikka,
        talous_id: data.talous_id,
    }
}

/// The organization profile that `data` describes, under the id `id`.
pub open spec fn organization_from(id: i64, data: CreateOrganization) -> Organization {
    Organization {
        id,
        nimi: data.nimi,
        katuosoite: data.katuosoite,
        postinumero: data.postinumero,
        postitoimipaikka: data.postitoimipaikka,
        puhelinnumero: data.puhelinnumero,
        sahkoposti: data.sahkoposti,
        y_tunnus: data.y_tunnus,
        pankkitili: data.pankkitili,
        bic: data.bic,
    }
}

/// The index of the first of `ids` equal to `id`.
pub open spec fn index_of(ids: Seq<i64>, id: i64) -> Option<int>
    decreases ids.len(),
{
    if ids.len() == 0 {
        None
    } else if ids[0] == id {
        Some(0)
    } else {
        match index_of(ids.subrange(1, ids.len() as int), id) {
            Some(i) => Some(i + 1),
            None => None,
        }
    }
}

/// The index of the first of `ids` equal to `id`.
fn find_index(ids: &Vec<i64>, id: i64) -> (r: Option<usize>)
    ensures
        match r {
            Some(j) => index_of(ids@, id) == Some(j as int) && j < ids@.len(),
            None => index_of(ids@, id) is None,
        },
{
    let mut i: usize = 0;
    assert(ids@.subrange(0, ids@.len() as int) =~= ids@);
    while i < ids.len()
        invariant
            i <= ids@.len(),
            match index_of(ids@, id) {
                Some(x) => match index_of(ids@.subrange(i as int, ids@.len() as int), id) {
                    Some(y) => x == y + i,
                    None => false,
                },
                None => index_of(ids@.subrange(i as int, ids@.len() as int), id) is None,
            },
        decreases ids@.len() - i,
    {
        let ghost rest = ids@.subrange(i as int, ids@.len() as int);
        assert(rest[0] == ids@[i as int]);
        assert(rest.subrange(1, rest.len() as int) =~= ids@.subrange(i + 1, ids@.len() as int));
        if ids[i] == id {
            assert(index_of(rest, id) == Some(0int));
            return Some(i);
        }
        i = i + 1;
    }
    None
}

impl Database {
    /// The ids of the members, in order.
    pub open spec fn member_ids(self) -> Seq<i64> {
        self.members@.map_values(|m: Member| m.id)
    }

    /// The ids of the households, in order.
    pub open spec fn household_ids(self) -> Seq<i64> {
        self.households@.map_values(|x: Household| x.id)
    }

    /// The ids of the addresses, in order.
    pub open spec fn address_ids(self) -> Seq<i64> {
        self.addresses@.map_values(|a: Address| a.id)
    }

    /// The ids of the membership fees, in order.
    pub open spec fn fee_ids(self) -> Seq<i64> {
        self.membership_fees@.map_values(|f: MembershipFee| f.id)
    }

    fn member_id_list(&self) -> (r: Vec<i64>)
        ensures
            r@ == self.member_ids(),
    {
        let mut r: Vec<i64> = Vec::new();
        let mut i: usize = 0;
        while i < self.members.len()
            invariant
                i <= self.members@.len(),
                r@ == self.members@.subrange(0, i as int).map_values(|m: Member| m.id),
            decreases self.members@.len() - i,
        {
            r.push(self.members[i].id);
            assert(r@ =~= self.members@.subrange(0, i + 1).map_values(|m: Member| m.id));
            i = i + 1;
        }
        assert(self.members@.subrange(0, i as int) =~= self.members@);
        r
    }

    fn household_id_list(&self) -> (r: Vec<i64>)
        ensures
            r@ == self.household_ids(),
    {
        let mut r: Vec<i64> = Vec::new();
        let mut i: usize = 0;
        while i < self.households.len()
            invariant
                i <= self.households@.len(),
                r@ == self.households@.subrange(0, i as int).map_values(|x: Household| x.id),
            decreases self.households@.len() - i,
        {
            r.push(self.households[i].id);
            assert(r@ =~= self.households@.subrange(0, i + 1).map_values(|x: Household| x.id));
            i = i + 1;
        }
        assert(self.households@.subrange(0, i as int) =~= self.households@);
        r
    }

    fn address_id_list(&self) -> (r: Vec<i64>)
        ensures
            r@ == self.address_ids(),
    {
        let mut r: Vec<i64> = Vec::new();
        let mut i: usize = 0;
        while i < self.addresses.len()
            invariant
                i <= self.addresses@.len(),
                r@ == self.addresses@.subrange(0, i as int).map_values(|a: Address| a.id),
            decreases self.addresses@.len() - i,
        {
            r.push(self.addresses[i].id);
            assert(r@ =~= self.addresses@.subrange(0, i + 1).map_values(|a: Address| a.id));
            i = i + 1;
        }
        assert(self.addresses@.subrange(0, i as int) =~= self.addresses@);
        r
    }

    fn fee_id_list(&self) -> (r: Vec<i64>)
        ensures
            r@ == self.fee_ids(),
    {
        let mut r: Vec<i64> = Vec::new();
        let mut i: usize = 0;
        while i < self.membership_fees.len()
            invariant
                i <= self.membership_fees@.len(),
                r@ == self.membership_fees@.subrange(0, i as int).map_values(|f: MembershipFee| f.id),
            decreases self.membership_fees@.len() - i,
        {
            r.push(self.membership_fees[i].id);
            assert(r@ =~= self.membership_fees@.subrange(0, i + 1).map_values(|f: MembershipFee| f.id));
            i = i + 1;
        }
        assert(self.membership_fees@.subrange(0, i as int) =~= self.membership_fees@);
        r
    }
}

/// Where a new member lives.
#[derive(Clone, Debug)]
pub enum Residence {
    /// At the address of the existing household with this id.
    Household(i64),
    /// In a new household of their own, named after the member.
    Own,
    /// In a new household with this name.
    NewHousehold(Option<String>),
}

/// A new member with the address of their household.
#[derive(Clone, Debug)]
pub struct NewMember {
    pub residence: Residence,
    pub katuosoite: String,
    pub postinumero: String,
    pub postitoimipaikka: String,
    /// The member's fields; the address id is set by where the member lives.
    pub member: CreateMember,
}

/// The name of a household of its own: the member's first and last name.
pub open spec fn own_household_name(data: CreateMember) -> Seq<char> {
    data.etunimi@ + " "@ + data.sukunimi@
}

/// The first address of `addresses` owned by household `h`.
pub open spec fn household_address(addresses: Seq<Address>, h: i64) -> Option<i64>
    decreases addresses.len(),
{
    if addresses.len() == 0 {
        None
    } else if addresses[0].talous_id == h {
        Some(addresses[0].id)
    } else {
        household_address(addresses.subrange(1, addresses.len() as int), h)
    }
}

/// Of the records of the register, only the members differ.
pub open spec fn only_members_differ(a: Database, b: Database) -> bool {
    &&& a.organization == b.organization
    &&& a.households@ == b.households@
    &&& a.addresses@ == b.addresses@
    &&& a.membership_fees@ == b.membership_fees@
    &&& a.invoices@ == b.invoices@
}

/// Of the records of the register, only the households differ.
pub open spec fn only_households_differ(a: Database, b: Database) -> bool {
    &&& a.organization == b.organization
    &&& a.members@ == b.members@
    &&& a.addresses@ == b.addresses@
    &&& a.membership_fees@ == b.membership_fees@
    &&& a.invoices@ == b.invoices@
}

/// Of the records of the register, only the addresses differ.
pub open spec fn only_addresses_differ(a: Database, b: Database) -> bool {
    &&& a.organization == b.organization
    &&& a.members@ == b.members@
    &&& a.households@ == b.households@
    &&& a.membership_fees@ == b.membership_fees@
    &&& a.invoices@ == b.invoices@
}

/// Of the records of the register, only the membership fees differ.
pub open spec fn only_fees_differ(a: Database, b: Database) -> bool {
    &&& a.organization == b.organization
    &&& a.members@ == b.members@
    &&& a.households@ == b.households@
    &&& a.addresses@ == b.addresses@
    &&& a.invoices@ == b.invoices@
}

impl Database {
    /// The organization profile, if one is set.
    pub fn get_organization(&self) -> (r: Option<Organization>)
        ensures
            r == self.organization,
    {
        match &self.organization {
            Some(o) => Some(copy_organization(o)),
            None => None,
        }
    }

    /// Sets the organization profile; it keeps its id, or gets id 1 where
    /// there was none.
    pub fn update_organization(&mut self, data: CreateOrganization) -> (r: Organization)
        ensures
            r == organization_from(
                match old(self).organization {
                    Some(o) => o.id,
                    None => 1,
                },
                data,
            ),
            final(self).organization == Some(r),
            final(self).members@ == old(self).members@,
            final(self).households@ == old(self).households@,
            final(self).addresses@ == old(self).addresses@,
            final(self).membership_fees@ == old(self).membership_fees@,
            final(self).invoices@ == old(self).invoices@,
    {
        let id = match &self.organization {
            Some(o) => o.id,
            None => 1,
        };
        let o = Organization {
            id,
            nimi: data.nimi,
            katuosoite: data.katuosoite,
            postinumero: data.postinumero,
            postitoimipaikka: data.postitoimipaikka,
            puhelinnumero: data.puhelinnumero,
            sahkoposti: data.sahkoposti,
            y_tunnus: data.y_tunnus,
            pankkitili: data.pankkitili,
            bic: data.bic,
        };
        let r = copy_organization(&o);
        self.organization = Some(o);
        r
    }

    /// Adds a household under the next household id.
    pub fn create_household(&mut self, data: CreateHousehold) -> (r: Result<Household, DbError>)
        ensures
            match r {
                Ok(x) => {
                    &&& max_id(old(self).household_ids()) + 1 <= i64::MAX
                    &&& x == household_from((max_id(old(self).household_ids()) + 1) as i64, data)
                    &&& final(self).households@ == old(self).households@.push(x)
                    &&& only_households_differ(*old(self), *final(self))
                },
                Err(e) => e == DbError::OutOfRange && max_id(old(self).household_ids()) + 1 > i64::MAX
                    && *final(self) == *old(self),
            },
    {
        let ids = self.household_id_list();
        let id = match next_id(&ids) {
            Some(id) => id,
            None => {
                return Err(DbError::OutOfRange);
            },
        };
        let x = Household {
            id,
            talouden_nimi: data.talouden_nimi,
            vastaanottaja: data.vastaanottaja,
            laskutusosoite_sama: data.laskutusosoite_sama,
            laskutusosoite_id: data.laskutusosoite_id,
        };
        let r = copy_household(&x);
        self.households.push(x);
        Ok(r)
    }

    /// Adds an address under the next address id.
    pub fn create_address(&mut self, data: CreateAddress) -> (r: Result<Address, DbError>)
        ensures
            match r {
                Ok(a) => {
                    &&& max_id(old(self).address_ids()) + 1 <= i64::MAX
                    &&& a == address_from((max_id(old(self).address_ids()) + 1) as i64, data)
                    &&& final(self).addresses@ == old(self).addresses@.push(a)
                    &&& only_addresses_differ(*old(self), *final(self))
                },
                Err(e) => e == DbError::OutOfRange && max_id(old(self).address_ids()) + 1 > i64::MAX
                    && *final(self) == *old(self),
            },
    {
        let ids = self.address_id_list();
        let id = match next_id(&ids) {
            Some(id) => id,
            None => {
                return Err(DbError::OutOfRange);
            },
        };
        let a = Address {
            id,
            katuosoite: data.katuosoite,
            postinumero: data.postinumero,
            postitoimipaikka: data.postitoimipaikka,
            talous_id: data.talous_id,
        };
        let r = copy_address(&a);
        self.addresses.push(a);
        Ok(r)
    }

    /// Adds a member under the next member id.
    pub fn create_member(&mut self, data: CreateMember) -> (r: Result<Member, DbError>)
        ensures
            match r {
                Ok(m) => {
                    &&& max_id(old(self).member_ids()) + 1 <= i64::MAX
                    &&& m == member_from((max_id(old(self).member_ids()) + 1) as i64, data)
                    &&& final(self).members@ == old(self).members@.push(m)
                    &&& only_members_differ(*old(self), *final(self))
                },
                Err(e) => e == DbError::OutOfRange && max_id(old(self).member_ids()) + 1 > i64::MAX
                    && *final(self) == *old(self),
            },
    {
        let ids = self.member_id_list();
        let id = match next_id(&ids) {
            Some(id) => id,
            None => {
                return Err(DbError::OutOfRange);
            },
        };
        let m = Member {
            id,
            etunimi: data.etunimi,
            sukunimi: data.sukunimi,
            henkilotunnus: data.henkilotunnus,
            syntymaaika: data.syntymaaika,
            puhelinnumero: data.puhelinnumero,
            sahkoposti: data.sahkoposti,
            osoite_id: data.osoite_id,
            liittymispaiva: data.liittymispaiva,
            jasentyyppi: data.jasentyyppi,
            aktiivinen: data.aktiivinen,
        };
        let r = copy_member(&m);
        self.members.push(m);
        Ok(r)
    }

    /// Replaces the fields of the first member with id `id`; the member keeps
    /// the id.
    pub fn update_member(&mut self, id: i64, data: CreateMember) -> (r: Result<Member, DbError>)
        ensures
            match index_of(old(self).member_ids(), id) {
                Some(i) => {
                    &&& r == Ok::<Member, DbError>(member_from(id, data))
                    &&& final(self).members@ == old(self).members@.update(i, member_from(id, data))
                },
                None => r == Err::<Member, DbError>(DbError::NotFound(id)) && final(self).members@
                    == old(self).members@,
            },
            only_members_differ(*old(self), *final(self)),
    {
        let ids = self.member_id_list();
        match find_index(&ids, id) {
            Some(i) => {
                let m = Member {
                    id,
                    etunimi: data.etunimi,
                    sukunimi: data.sukunimi,
                    henkilotunnus: data.henkilotunnus,
                    syntymaaika: data.syntymaaika,
                    puhelinnumero: data.puhelinnumero,
                    sahkoposti: data.sahkoposti,
                    osoite_id: data.osoite_id,
                    liittymispaiva: data.liittymispaiva,
                    jasentyyppi: data.jasentyyppi,
                    aktiivinen: data.aktiivinen,
                };
                let r = copy_member(&m);
                self.members.set(i, m);
                Ok(r)
            },
            None => Err(DbError::NotFound(id)),
        }
    }

    /// Replaces the fields of the first household with id `id`; the
    /// household keeps the id.
    pub fn update_household(&mut self, id: i64, data: CreateHousehold) -> (r: Result<Household, DbError>)
        ensures
            match index_of(old(self).household_ids(), id) {
                Some(i) => {
                    &&& r == Ok::<Household, DbError>(household_from(id, data))
                    &&& final(self).households@ == old(self).households@.update(i, household_from(id, data))
                },
                None => r == Err::<Household, DbError>(DbError::NotFound(id)) && final(self).households@
                    == old(self).households@,
            },
            only_households_differ(*old(self), *final(self)),
    {
        let ids = self.household_id_list();
        match find_index(&ids, id) {
            Some(i) => {
                let x = Household {
                    id,
                    talouden_nimi: data.talouden_nimi,
                    vastaanottaja: data.vastaanottaja,
                    laskutusosoite_sama: data.laskutusosoite_sama,
                    laskutusosoite_id: data.laskutusosoite_id,
                };
                let r = copy_household(&x);
                self.households.set(i, x);
                Ok(r)
            },
            None => Err(DbError::NotFound(id)),
        }
    }

    /// The address id of the first member with id `member_id`.
    pub fn get_member_address_id(&self, member_id: i64) -> (r: Result<i64, DbError>)
        ensures
            match find_member(self.members@, member_id) {
                Some(m) => r == Ok::<i64, DbError>(m.osoite_id),
                None => r == Err::<i64, DbError>(DbError::NotFound(member_id)),
            },
    {
        match self.member_address(member_id) {
            Some(a) => Ok(a),
            None => Err(DbError::NotFound(member_id)),
        }
    }
}

/// Some fee row of `fees` other than the one at index `skip` has the year
/// and type `year`, `t`.
pub open spec fn fee_key_taken(fees: Seq<MembershipFee>, skip: int, year: i32, t: crate::models::MemberType) -> bool {
    exists|j: int| 0 <= j < fees.len() && j != skip && #[trigger] fees[j].vuosi == year && fees[j].jasentyyppi == t
}

/// `a` with the street address `katuosoite`, `postinumero`, `postitoimipaikka`.
pub open spec fn moved(a: Address, katuosoite: String, postinumero: String, postitoimipaikka: String) -> Address {
    Address { katuosoite, postinumero, postitoimipaikka, ..a }
}

/// What creating a household with its address took `old` to.
pub open spec fn household_with_address_created(
    old: Database,
    data: CreateHousehold,
    katuosoite: String,
    postinumero: String,
    postitoimipaikka: String,
    new: Database,
    x: Household,
) -> bool {
    let hid = (max_id(old.household_ids()) + 1) as i64;
    let aid = (max_id(old.address_ids()) + 1) as i64;
    &&& x == household_from(hid, data)
    &&& new.households@ == old.households@.push(x)
    &&& new.addresses@ == old.addresses@.push(
        Address { id: aid, katuosoite, postinumero, postitoimipaikka, talous_id: hid },
    )
    &&& new.members@ == old.members@
    &&& new.membership_fees@ == old.membership_fees@
    &&& new.invoices@ == old.invoices@
    &&& new.organization == old.organization
}

impl Database {
    /// Whether a fee row other than the one at `skip` has year `year` and type `t`.
    fn fee_key_in_use(&self, skip: usize, year: i32, t: crate::models::MemberType) -> (r: bool)
        ensures
            r == fee_key_taken(self.membership_fees@, skip as int, year, t),
    {
        let mut j: usize = 0;
        while j < self.membership_fees.len()
            invariant
                j <= self.membership_fees@.len(),
                forall|k: int|
                    0 <= k < j && k != skip ==> !(#[trigger] self.membership_fees@[k].vuosi == year
                        && self.membership_fees@[k].jasentyyppi == t),
            decreases self.membership_fees@.len() - j,
        {
            if j != skip && self.membership_fees[j].vuosi == year && self.membership_fees[j].jasentyyppi == t {
                return true;
            }
            j = j + 1;
        }
        false
    }

    /// Adds the fee of a member type for a year under the next fee id. The
    /// catalog holds one fee per year and type: a second one is refused.
    pub fn create_membership_fee(&mut self, data: CreateMembershipFee) -> (r: Result<MembershipFee, DbError>)
        ensures
            fee_lookup(old(self).membership_fees@, data.vuosi as int, data.jasentyyppi) is Some ==> r
                is Err && r->Err_0 is Validation,
            match r {
                Ok(f) => {
                    &&& fee_lookup(old(self).membership_fees@, data.vuosi as int, data.jasentyyppi) is None
                    &&& max_id(old(self).fee_ids()) + 1 <= i64::MAX
                    &&& f == (MembershipFee {
                        id: (max_id(old(self).fee_ids()) + 1) as i64,
                        vuosi: data.vuosi,
                        jasentyyppi: data.jasentyyppi,
                        summa: data.summa,
                    })
                    &&& final(self).membership_fees@ == old(self).membership_fees@.push(f)
                    &&& only_fees_differ(*old(self), *final(self))
                },
                Err(e) => *final(self) == *old(self) && (e is Validation || (e == DbError::OutOfRange
                    && max_id(old(self).fee_ids()) + 1 > i64::MAX)),
            },
    {
        if self.resolve_fee(data.vuosi, data.jasentyyppi).is_some() {
            return Err(
                DbError::Validation(String::from_str("A fee for this year and member type exists already.")),
            );
        }
        let ids = self.fee_id_list();
        let id = match next_id(&ids) {
            Some(id) => id,
            None => {
                return Err(DbError::OutOfRange);
            },
        };
        let f = MembershipFee { id, vuosi: data.vuosi, jasentyyppi: data.jasentyyppi, summa: data.summa };
        self.membership_fees.push(f);
        Ok(f)
    }

    /// Replaces the year, type and amount of the first fee with id `id`. A
    /// change to a year and type that another fee has is refused.
    pub fn update_membership_fee(&mut self, id: i64, data: CreateMembershipFee) -> (r: Result<MembershipFee, DbError>)
        ensures
            match index_of(old(self).fee_ids(), id) {
                Some(i) => if fee_key_taken(old(self).membership_fees@, i, data.vuosi, data.jasentyyppi) {
                    r is Err && r->Err_0 is Validation && *final(self) == *old(self)
                } else {
                    let f = MembershipFee { id, vuosi: data.vuosi, jasentyyppi: data.jasentyyppi, summa: data.summa };
                    &&& r == Ok::<MembershipFee, DbError>(f)
                    &&& final(self).membership_fees@ == old(self).membership_fees@.update(i, f)
                },
                None => r == Err::<MembershipFee, DbError>(DbError::NotFound(id)) && *final(self) == *old(self),
            },
            only_fees_differ(*old(self), *final(self)),
    {
        let ids = self.fee_id_list();
        match find_index(&ids, id) {
            Some(i) => {
                if self.fee_key_in_use(i, data.vuosi, data.jasentyyppi) {
                    return Err(
                        DbError::Validation(String::from_str("A fee for this year and member type exists already.")),
                    );
                }
                let f = MembershipFee { id, vuosi: data.vuosi, jasentyyppi: data.jasentyyppi, summa: data.summa };
                self.membership_fees.set(i, f);
                Ok(f)
            },
            None => Err(DbError::NotFound(id)),
        }
    }

    /// Deletes the fees with id `id`; where there is none, the id is not found.
    pub fn delete_membership_fee(&mut self, id: i64) -> (r: Result<(), DbError>)
        ensures
            r is Ok <==> old(self).fee_ids().contains(id),
            r is Err ==> r == Err::<(), DbError>(DbError::NotFound(id)) && *final(self) == *old(self),
            r is Ok ==> final(self).membership_fees@ == old(self).membership_fees@.filter(
                |f: MembershipFee| f.id != id,
            ),
            only_fees_differ(*old(self), *final(self)),
    {
        let mut kept: Vec<MembershipFee> = Vec::new();
        let mut found = false;
        let mut i: usize = 0;
        let ghost p = |f: MembershipFee| f.id != id;
        while i < self.membership_fees.len()
            invariant
                i <= self.membership_fees@.len(),
                p == (|f: MembershipFee| f.id != id),
                kept@ == self.membership_fees@.subrange(0, i as int).filter(p),
                found <==> exists|j: int| 0 <= j < i && #[trigger] self.membership_fees@[j].id == id,
            decreases self.membership_fees@.len() - i,
        {
            proof {
                reveal(Seq::filter);
                assert(self.membership_fees@.subrange(0, i + 1).drop_last() =~= self.membership_fees@.subrange(0, i as int));
            }
            if self.membership_fees[i].id != id {
                kept.push(self.membership_fees[i]);
            } else {
                found = true;
            }
            i = i + 1;
        }
        assert(self.membership_fees@.subrange(0, i as int) =~= self.membership_fees@);
        if !found {
            assert(!self.fee_ids().contains(id)) by {
                if self.fee_ids().contains(id) {
                    let j = choose|j: int| 0 <= j < self.fee_ids().len() && self.fee_ids()[j] == id;
                    assert(self.membership_fees@[j].id == id);
                }
            }
            return Err(DbError::NotFound(id));
        }
        proof {
            let j = choose|j: int| 0 <= j < i && #[trigger] self.membership_fees@[j].id == id;
            assert(self.fee_ids()[j] == id);
        }
        self.membership_fees = kept;
        Ok(())
    }

    /// Sets the street address of the first address with id `address_id`.
    pub fn update_address(
        &mut self,
        address_id: i64,
        katuosoite: String,
        postinumero: String,
        postitoimipaikka: String,
    ) -> (r: Result<(), DbError>)
        ensures
            match index_of(old(self).address_ids(), address_id) {
                Some(i) => r is Ok && final(self).addresses@ == old(self).addresses@.update(
                    i,
                    moved(old(self).addresses@[i], katuosoite, postinumero, postitoimipaikka),
                ),
                None => r == Err::<(), DbError>(DbError::NotFound(address_id)) && final(self).addresses@
                    == old(self).addresses@,
            },
            only_addresses_differ(*old(self), *final(self)),
    {
        let ids = self.address_id_list();
        match find_index(&ids, address_id) {
            Some(i) => {
                let old_a = &self.addresses[i];
                let a = Address {
                    id: old_a.id,
                    katuosoite,
                    postinumero,
                    postitoimipaikka,
                    talous_id: old_a.talous_id,
                };
                self.addresses.set(i, a);
                Ok(())
            },
            None => Err(DbError::NotFound(address_id)),
        }
    }

    /// Sets the street address of every address of household `h`.
    pub fn update_household_address(
        &mut self,
        h: i64,
        katuosoite: String,
        postinumero: String,
        postitoimipaikka: String,
    )
        ensures
            final(self).addresses@.len() == old(self).addresses@.len(),
            forall|i: int|
                0 <= i < old(self).addresses@.len() ==> #[trigger] final(self).addresses@[i] == if old(
                    self,
                ).addresses@[i].talous_id == h {
                    moved(old(self).addresses@[i], katuosoite, postinumero, postitoimipaikka)
                } else {
                    old(self).addresses@[i]
                },
            only_addresses_differ(*old(self), *final(self)),
    {
        let mut i: usize = 0;
        while i < self.addresses.len()
            invariant
                i <= self.addresses@.len(),
                self.addresses@.len() == old(self).addresses@.len(),
                only_addresses_differ(*old(self), *self),
                forall|j: int|
                    0 <= j < self.addresses@.len() ==> #[trigger] self.addresses@[j] == if j < i
                        && old(self).addresses@[j].talous_id == h {
                        moved(old(self).addresses@[j], katuosoite, postinumero, postitoimipaikka)
                    } else {
                        old(self).addresses@[j]
                    },
            decreases self.addresses@.len() - i,
        {
            if self.addresses[i].talous_id == h {
                let a = Address {
                    id: self.addresses[i].id,
                    katuosoite: katuosoite.clone(),
                    postinumero: postinumero.clone(),
                    postitoimipaikka: postitoimipaikka.clone(),
                    talous_id: h,
                };
                self.addresses.set(i, a);
            }
            i = i + 1;
        }
    }

    /// The first address of household `h`.
    fn address_of_household(&self, h: i64) -> (r: Option<i64>)
        ensures
            r == household_address(self.addresses@, h),
    {
        let mut i: usize = 0;
        assert(self.addresses@.subrange(0, self.addresses@.len() as int) =~= self.addresses@);
        while i < self.addresses.len()
            invariant
                i <= self.addresses@.len(),
                household_address(self.addresses@, h) == household_address(
                    self.addresses@.subrange(i as int, self.addresses@.len() as int),
                    h,
                ),
            decreases self.addresses@.len() - i,
        {
            let ghost rest = self.addresses@.subrange(i as int, self.addresses@.len() as int);
            assert(rest[0] == self.addresses@[i as int]);
            assert(rest.subrange(1, rest.len() as int) =~= self.addresses@.subrange(
                i + 1,
                self.addresses@.len() as int,
            ));
            if self.addresses[i].talous_id == h {
                assert(household_address(rest, h) == Some(self.addresses@[i as int].id));
                return Some(self.addresses[i].id);
            }
            i = i + 1;
        }
        None
    }

    /// Creates a household under the next household id, together with its
    /// own address under the next address id. Fails, changing nothing, where
    /// a new id does not fit an `i64`.
    pub fn create_household_with_address(
        &mut self,
        data: CreateHousehold,
        katuosoite: String,
        postinumero: String,
        postitoimipaikka: String,
    ) -> (r: Result<Household, DbError>)
        ensures
            match r {
                Ok(x) => max_id(old(self).household_ids()) + 1 <= i64::MAX && max_id(old(self).address_ids()) + 1
                    <= i64::MAX && household_with_address_created(
                    *old(self),
                    data,
                    katuosoite,
                    postinumero,
                    postitoimipaikka,
                    *final(self),
                    x,
                ),
                Err(e) => {
                    &&& e == DbError::OutOfRange
                    &&& *final(self) == *old(self)
                    &&& max_id(old(self).household_ids()) + 1 > i64::MAX || max_id(old(self).address_ids())
                        + 1 > i64::MAX
                },
            },
    {
        let aids = self.address_id_list();
        if next_id(&aids).is_none() {
            return Err(DbError::OutOfRange);
        }
        let x = self.create_household(data)?;
        let a = CreateAddress { katuosoite, postinumero, postitoimipaikka, talous_id: x.id };
        match self.create_address(a) {
            Ok(_) => Ok(x),
            Err(e) => Err(e),
        }
    }

    /// Creates a member where `request` says they live: at the first address
    /// of an existing household, or in a new household with its own address.
    /// An unknown household is not found; where a new id does not fit an
    /// `i64`, nothing changes.
    pub fn create_member_with_address(&mut self, request: NewMember) -> (r: Result<Member, DbError>)
        ensures
            r is Err ==> *final(self) == *old(self),
            request.residence matches Residence::Household(h) ==> match household_address(old(self).addresses@, h) {
                None => r == Err::<Member, DbError>(DbError::NotFound(h)),
                Some(aid) => r is Ok ==> {
                    &&& r->Ok_0 == member_from((max_id(old(self).member_ids()) + 1) as i64, CreateMember { osoite_id: aid, ..request.member })
                    &&& final(self).members@ == old(self).members@.push(r->Ok_0)
                    &&& only_members_differ(*old(self), *final(self))
                },
            },
            !(request.residence is Household) && r is Ok ==> {
                let hid = (max_id(old(self).household_ids()) + 1) as i64;
                let aid = (max_id(old(self).address_ids()) + 1) as i64;
                let name = match request.residence {
                    Residence::NewHousehold(n) => n,
                    _ => final(self).households@.last().talouden_nimi,
                };
                &&& request.residence is Own ==> (name matches Some(n) && n@ == own_household_name(request.member))
                &&& final(self).households@ == old(self).households@.push(
                    household_from(hid, CreateHousehold {
                        talouden_nimi: name,
                        vastaanottaja: name,
                        laskutusosoite_sama: true,
                        laskutusosoite_id: None,
                    }),
                )
                &&& final(self).addresses@ == old(self).addresses@.push(Address {
                    id: aid,
                    katuosoite: request.katuosoite,
                    postinumero: request.postinumero,
                    postitoimipaikka: request.postitoimipaikka,
                    talous_id: hid,
                })
                &&& r->Ok_0 == member_from((max_id(old(self).member_ids()) + 1) as i64, CreateMember { osoite_id: aid, ..request.member })
                &&& final(self).members@ == old(self).members@.push(r->Ok_0)
                &&& final(self).membership_fees@ == old(self).membership_fees@
                &&& final(self).invoices@ == old(self).invoices@
                &&& final(self).organization == old(self).organization
            },
            r is Err ==> r->Err_0 is OutOfRange || r->Err_0 is NotFound,
            max_id(old(self).member_ids()) + 1 <= i64::MAX && (request.residence matches Residence::Household(h)
                ==> household_address(old(self).addresses@, h) is Some) && (!(request.residence is Household)
                ==> max_id(old(self).household_ids()) + 1 <= i64::MAX && max_id(old(self).address_ids()) + 1
                <= i64::MAX) ==> r is Ok,
            r is Ok ==> max_id(old(self).member_ids()) + 1 <= i64::MAX,
            r == Err::<Member, DbError>(DbError::OutOfRange) ==> max_id(old(self).member_ids()) + 1 > i64::MAX
                || (!(request.residence is Household) && (max_id(old(self).household_ids()) + 1 > i64::MAX
                || max_id(old(self).address_ids()) + 1 > i64::MAX)),
    {
        let mids = self.member_id_list();
        let member_id_free = next_id(&mids).is_some();
        let NewMember { residence, katuosoite, postinumero, postitoimipaikka, member } = request;
        let address_id = match residence {
            Residence::Household(h) => match self.address_of_household(h) {
                Some(a) => {
                    if !member_id_free {
                        return Err(DbError::OutOfRange);
                    }
                    a
                },
                None => {
                    return Err(DbError::NotFound(h));
                },
            },
            Residence::Own | Residence::NewHousehold(_) => {
                if !member_id_free {
                    return Err(DbError::OutOfRange);
                }
                let name = match residence {
                    Residence::NewHousehold(n) => n,
                    _ => {
                        let mut n = member.etunimi.clone();
                        n.append(" ");
                        n.append(member.sukunimi.as_str());
                        Some(n)
                    },
                };
                let household = CreateHousehold {
                    talouden_nimi: copy_text(&name),
                    vastaanottaja: name,
                    laskutusosoite_sama: true,
                    laskutusosoite_id: None,
                };
                self.create_household_with_address(household, katuosoite, postinumero, postitoimipaikka)?;
                let last = self.addresses.len() - 1;
                self.addresses[last].id
            },
        };
        let data = CreateMember { osoite_id: address_id, ..member };
        self.create_member(data)
    }
}

/// A street address as the user enters it.
#[derive(Clone, Debug)]
pub struct StreetAddress {
    pub katuosoite: String,
    pub postinumero: String,
    pub postitoimipaikka: String,
}

/// A member is found by id exactly where the member ids hold it.
proof fn lemma_member_found(ms: Seq<Member>, id: i64)
    ensures
        (find_member(ms, id) is Some) == (index_of(ms.map_values(|m: Member| m.id), id) is Some),
    decreases ms.len(),
{
    if ms.len() > 0 {
        let rest = ms.subrange(1, ms.len() as int);
        let ids = ms.map_values(|m: Member| m.id);
        assert(ids.subrange(1, ids.len() as int) =~= rest.map_values(|m: Member| m.id));
        lemma_member_found(rest, id);
    }
}

impl Database {
    /// Updates member `id` and, where `address` is given, the street address
    /// the member lives at; the member stays at the same address record. An
    /// unknown member, or a given address for a member whose address record
    /// is missing, is not found, and then nothing changes.
    pub fn update_member_with_address(
        &mut self,
        id: i64,
        address: Option<StreetAddress>,
        data: CreateMember,
    ) -> (r: Result<Member, DbError>)
        ensures
            r is Err ==> *final(self) == *old(self),
            match find_member(old(self).members@, id) {
                None => r == Err::<Member, DbError>(DbError::NotFound(id)),
                Some(m) => {
                    let aid = m.osoite_id;
                    let updated = member_from(id, CreateMember { osoite_id: aid, ..data });
                    match address {
                        Some(a) => match index_of(old(self).address_ids(), aid) {
                            None => r == Err::<Member, DbError>(DbError::NotFound(aid)),
                            Some(k) => {
                                &&& r == Ok::<Member, DbError>(updated)
                                &&& final(self).addresses@ == old(self).addresses@.update(
                                    k,
                                    moved(old(self).addresses@[k], a.katuosoite, a.postinumero, a.postitoimipaikka),
                                )
                                &&& final(self).members@ == old(self).members@.update(
                                    index_of(old(self).member_ids(), id)->Some_0,
                                    updated,
                                )
                            },
                        },
                        None => {
                            &&& r == Ok::<Member, DbError>(updated)
                            &&& final(self).addresses@ == old(self).addresses@
                            &&& final(self).members@ == old(self).members@.update(
                                index_of(old(self).member_ids(), id)->Some_0,
                                updated,
                            )
                        },
                    }
                },
            },
            final(self).households@ == old(self).households@,
            final(self).membership_fees@ == old(self).membership_fees@,
            final(self).invoices@ == old(self).invoices@,
            final(self).organization == old(self).organization,
    {
        proof {
            lemma_member_found(self.members@, id);
        }
        let address_id = match self.member_address(id) {
            Some(a) => a,
            None => {
                return Err(DbError::NotFound(id));
            },
        };
        if let Some(a) = address {
            let ids = self.address_id_list();
            if find_index(&ids, address_id).is_none() {
                return Err(DbError::NotFound(address_id));
            }
            let _ = self.update_address(address_id, a.katuosoite, a.postinumero, a.postitoimipaikka);
        }
        self.update_member(id, CreateMember { osoite_id: address_id, ..data })
    }

    /// Updates household `id` and, where `address` is given, the street
    /// address of every address of the household. An unknown household is
    /// not found, and then nothing changes.
    pub fn update_household_with_address(
        &mut self,
        id: i64,
        data: CreateHousehold,
        address: Option<StreetAddress>,
    ) -> (r: Result<Household, DbError>)
        ensures
            match index_of(old(self).household_ids(), id) {
                None => {
                    &&& r == Err::<Household, DbError>(DbError::NotFound(id))
                    &&& final(self).households@ == old(self).households@
                    &&& final(self).addresses@ == old(self).addresses@
                },
                Some(i) => {
                    &&& r == Ok::<Household, DbError>(household_from(id, data))
                    &&& final(self).households@ == old(self).households@.update(i, household_from(id, data))
                    &&& final(self).addresses@.len() == old(self).addresses@.len()
                    &&& forall|k: int|
                        0 <= k < old(self).addresses@.len() ==> #[trigger] final(self).addresses@[k] == match address {
                            Some(a) => if old(self).addresses@[k].talous_id == id {
                                moved(old(self).addresses@[k], a.katuosoite, a.postinumero, a.postitoimipaikka)
                            } else {
                                old(self).addresses@[k]
                            },
                            None => old(self).addresses@[k],
                        }
                },
            },
            final(self).members@ == old(self).members@,
            final(self).membership_fees@ == old(self).membership_fees@,
            final(self).invoices@ == old(self).invoices@,
            final(self).organization == old(self).organization,
    {
        let updated = match self.update_household(id, data) {
            Ok(x) => x,
            Err(e) => {
                return Err(e);
            },
        };
        if let Some(a) = address {
            self.update_household_address(id, a.katuosoite, a.postinumero, a.postitoimipaikka);
        }
        Ok(updated)
    }
}

} // verus!
