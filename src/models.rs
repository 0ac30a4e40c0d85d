//! The records of the membership register. Money is held in cents.
use crate::calendar::Date;
use vstd::prelude::*;

verus! {

/// Organization profile.
#[derive(Clone, Debug)]
pub struct Organization {
    pub id: i64,
    pub nimi: String,
    pub katuosoite: String,
    pub postinumero: String,
    pub postitoimipaikka: String,
    pub puhelinnumero: Option<String>,
    pub sahkoposti: Option<String>,
    pub y_tunnus: Option<String>,
    pub pankkitili: Option<String>,
    pub bic: Option<String>,
}

/// The fields of an organization profile as the user enters them.
#[derive(Clone, Debug)]
pub struct CreateOrganization {
    pub nimi: String,
    pub katuosoite: String,
    pub postinumero: String,
    pub postitoimipaikka: String,
    pub puhelinnumero: Option<String>,
    pub sahkoposti: Option<String>,
    pub y_tunnus: Option<String>,
    pub pankkitili: Option<String>,
    pub bic: Option<String>,
}

/// A household: the unit that is invoiced.
#[derive(Clone, Debug)]
pub struct Household {
    pub id: i64,
    pub talouden_nimi: Option<String>,
    pub vastaanottaja: Option<String>,
    pub laskutusosoite_sama: bool,
    pub laskutusosoite_id: Option<i64>,
}

/// The fields of a household as the user enters them.
#[derive(Clone, Debug)]
pub struct CreateHousehold {
    pub talouden_nimi: Option<String>,
    pub vastaanottaja: Option<String>,
    pub laskutusosoite_sama: bool,
    pub laskutusosoite_id: Option<i64>,
}

/// A street address, owned by the household `talous_id`.
#[derive(Clone, Debug)]
pub struct Address {
    pub id: i64,
    pub katuosoite: String,
    pub postinumero: String,
    pub postitoimipaikka: String,
    pub talous_id: i64,
}

/// The fields of an address as the user enters them.
#[derive(Clone, Debug)]
pub struct CreateAddress {
    pub katuosoite: String,
    pub postinumero: String,
    pub postitoimipaikka: String,
    pub talous_id: i64,
}

/// The kind of membership, which decides the fee.
#[derive(Clone, Copy, Debug, PartialEq, Eq, Structural)]
pub enum MemberType {
    Varsinainen,
    Kannatus,
    Kunnia,
}

/// The stored name of a member type.
pub open spec fn member_type_name(t: MemberType) -> Seq<char> {
    match t {
        MemberType::Varsinainen => "varsinainen"@,
        MemberType::Kannatus => "kannatus"@,
        MemberType::Kunnia => "kunnia"@,
    }
}

/// The member type that a name stands for: the stored name, or the same
/// with a capital first letter.
pub open spec fn member_type_of_name(s: Seq<char>) -> Option<MemberType> {
    if s == "varsinainen"@ || s == "Varsinainen"@ {
        Some(MemberType::Varsinainen)
    } else if s == "kannatus"@ || s == "Kannatus"@ {
        Some(MemberType::Kannatus)
    } else if s == "kunnia"@ || s == "Kunnia"@ {
        Some(MemberType::Kunnia)
    } else {
        None
    }
}

/// Compares two texts character by character.
pub fn text_equals(a: &str, b: &str) -> (r: bool)
    ensures
        r == (a@ == b@),
{
    let n = a.unicode_len();
    let m = b.unicode_len();
    if n != m {
        return false;
    }
    let mut i: usize = 0;
    while i < n
        invariant
            n == a@.len(),
            m == b@.len(),
            n == m,
            i <= n,
            a@.subrange(0, i as int) == b@.subrange(0, i as int),
        decreases n - i,
    {
        if a.get_char(i) != b.get_char(i) {
            assert(a@[i as int] != b@[i as int]);
            return false;
        }
        assert(a@.subrange(0, i + 1) =~= a@.subrange(0, i as int).push(a@[i as int]));
        assert(b@.subrange(0, i + 1) =~= b@.subrange(0, i as int).push(b@[i as int]));
        i = i + 1;
    }
    assert(a@ =~= a@.subrange(0, n as int));
    assert(b@ =~= b@.subrange(0, n as int));
    true
}

impl MemberType {
    /// The stored name of the member type.
    pub fn to_string(&self) -> (r: String)
        ensures
            r@ == member_type_name(*self),
    {
        match self {
            MemberType::Varsinainen => String::from_str("varsinainen"),
            MemberType::Kannatus => String::from_str("kannatus"),
            MemberType::Kunnia => String::from_str("kunnia"),
        }
    }

    /// Reads a member type from its stored name, or from the same name with a
    /// capital first letter; any other text is refused.
    pub fn from_str(s: &str) -> (r: Result<MemberType, String>)
        ensures
            match r {
                Ok(t) => member_type_of_name(s@) == Some(t),
                Err(msg) => member_type_of_name(s@) is None && msg@ == "Invalid member type: "@
                    + s@,
            },
    {
        if text_equals(s, "varsinainen") || text_equals(s, "Varsinainen") {
            Ok(MemberType::Varsinainen)
        } else if text_equals(s, "kannatus") || text_equals(s, "Kannatus") {
            Ok(MemberType::Kannatus)
        } else if text_equals(s, "kunnia") || text_equals(s, "Kunnia") {
            Ok(MemberType::Kunnia)
        } else {
            let mut msg = String::from_str("Invalid member type: ");
            msg.append(s);
            Err(msg)
        }
    }
}

/// A member of the organization, living at the address `osoite_id`.
#[derive(Clone, Debug)]
pub struct Member {
    pub id: i64,
    pub etunimi: String,
    pub sukunimi: String,
    pub henkilotunnus: Option<String>,
    pub syntymaaika: Option<Date>,
    pub puhelinnumero: Option<String>,
    pub sahkoposti: Option<String>,
    pub osoite_id: i64,
    pub liittymispaiva: Date,
    pub jasentyyppi: MemberType,
    pub aktiivinen: bool,
}

/// The fields of a member as the user enters them.
#[derive(Clone, Debug)]
pub struct CreateMember {
    pub etunimi: String,
    pub sukunimi: String,
    pub henkilotunnus: Option<String>,
    pub syntymaaika: Option<Date>,
    pub puhelinnumero: Option<String>,
    pub sahkoposti: Option<String>,
    pub osoite_id: i64,
    pub liittymispaiva: Date,
    pub jasentyyppi: MemberType,
    pub aktiivinen: bool,
}

/// The fee, in cents, of the member type `jasentyyppi` for the year `vuosi`.
#[derive(Clone, Copy, Debug, PartialEq, Eq, Structural)]
pub struct MembershipFee {
    pub id: i64,
    pub vuosi: i32,
    pub jasentyyppi: MemberType,
    pub summa: i64,
}

/// The fields of a membership fee as the user enters them.
#[derive(Clone, Copy, Debug, PartialEq, Eq, Structural)]
pub struct CreateMembershipFee {
    pub vuosi: i32,
    pub jasentyyppi: MemberType,
    pub summa: i64,
}

/// One member's fee on an invoice, in cents.
#[derive(Clone, Debug)]
pub struct InvoiceLine {
    pub jasen_id: i64,
    pub kuvaus: String,
    pub summa: i64,
}

/// An invoice of a household with its lines. The amount is in cents.
#[derive(Clone, Debug)]
pub struct Invoice {
    pub id: i64,
    pub talous_id: i64,
    pub luontipaiva: Date,
    pub erapaiva: Date,
    pub summa: i64,
    pub viitenumero: String,
    pub laskunumero: Option<String>,
    pub maksettu: bool,
    pub maksupaiva: Option<Date>,
    pub rivit: Vec<InvoiceLine>,
}

/// Why an operation on the register failed.
#[derive(Clone, Debug, PartialEq, Eq)]
pub enum DbError {
    /// The input cannot be acted on; the text says what to change.
    Validation(String),
    /// The member has invoice lines and cannot be removed.
    ReferentialIntegrity,
    /// No record has the given id.
    NotFound(i64),
    /// A text could not be read as a date or a member type.
    Parse(String),
    /// A computed amount or a new id does not fit its type.
    OutOfRange,
}

/// The two invoices hold the same values.
pub open spec fn same_invoice(a: Invoice, b: Invoice) -> bool {
    &&& a.id == b.id
    &&& a.talous_id == b.talous_id
    &&& a.luontipaiva == b.luontipaiva
    &&& a.erapaiva == b.erapaiva
    &&& a.summa == b.summa
    &&& a.viitenumero == b.viitenumero
    &&& a.laskunumero == b.laskunumero
    &&& a.maksettu == b.maksettu
    &&& a.maksupaiva == b.maksupaiva
    &&& a.rivit@ == b.rivit@
}

/// A copy of `s`.
pub(crate) fn copy_text(s: &Option<String>) -> (r: Option<String>)
    ensures
        r == *s,
{
    match s {
        Some(t) => Some(t.clone()),
        None => None,
    }
}

/// A copy of `m`.
pub(crate) fn copy_member(m: &Member) -> (r: Member)
    ensures
        r == *m,
{
    Member {
        id: m.id,
        etunimi: m.etunimi.clone(),
        sukunimi: m.sukunimi.clone(),
        henkilotunnus: copy_text(&m.henkilotunnus),
        syntymaaika: m.syntymaaika,
        puhelinnumero: copy_text(&m.puhelinnumero),
        sahkoposti: copy_text(&m.sahkoposti),
        osoite_id: m.osoite_id,
        liittymispaiva: m.liittymispaiva,
        jasentyyppi: m.jasentyyppi,
        aktiivinen: m.aktiivinen,
    }
}

/// A copy of `a`.
pub(crate) fn copy_address(a: &Address) -> (r: Address)
    ensures
        r == *a,
{
    Address {
        id: a.id,
        katuosoite: a.katuosoite.clone(),
        postinumero: a.postinumero.clone(),
        postitoimipaikka: a.postitoimipaikka.clone(),
        talous_id: a.talous_id,
    }
}

/// A copy of `x`.
pub(crate) fn copy_household(x: &Household) -> (r: Household)
    ensures
        r == *x,
{
    Household {
        id: x.id,
        talouden_nimi: copy_text(&x.talouden_nimi),
        vastaanottaja: copy_text(&x.vastaanottaja),
        laskutusosoite_sama: x.laskutusosoite_sama,
        laskutusosoite_id: x.laskutusosoite_id,
    }
}

pub(crate) fn copy_organization(o: &Organization) -> (r: Organization)
    ensures
        r == *o,
{
    Organization {
        id: o.id,
        nimi: o.nimi.clone(),
        katuosoite: o.katuosoite.clone(),
        postinumero: o.postinumero.clone(),
        postitoimipaikka: o.postitoimipaikka.clone(),
        puhelinnumero: copy_text(&o.puhelinnumero),
        sahkoposti: copy_text(&o.sahkoposti),
        y_tunnus: copy_text(&o.y_tunnus),
        pankkitili: copy_text(&o.pankkitili),
        bic: copy_text(&o.bic),
    }
}

/// A copy of `l`.
pub(crate) fn copy_line(l: &InvoiceLine) -> (r: InvoiceLine)
    ensures
        r == *l,
{
    InvoiceLine { jasen_id: l.jasen_id, kuvaus: l.kuvaus.clone(), summa: l.summa }
}

/// A copy of `v`.
pub(crate) fn copy_lines(v: &Vec<InvoiceLine>) -> (r: Vec<InvoiceLine>)
    ensures
        r@ == v@,
{
    let mut r: Vec<InvoiceLine> = Vec::new();
    let mut i: usize = 0;
    while i < v.len()
        invariant
            i <= v@.len(),
            r@ == v@.subrange(0, i as int),
        decreases v@.len() - i,
    {
        r.push(copy_line(&v[i]));
        assert(r@ =~= v@.subrange(0, i + 1));
        i = i + 1;
    }
    assert(v@.subrange(0, i as int) =~= v@);
    r
}

/// A copy of `c`.
pub(crate) fn copy_invoice(c: &Invoice) -> (r: Invoice)
    ensures
        same_invoice(r, *c),
{
    let laskunumero = match &c.laskunumero {
        Some(n) => Some(n.clone()),
        None => None,
    };
    Invoice {
        id: c.id,
        talous_id: c.talous_id,
        luontipaiva: c.luontipaiva,
        erapaiva: c.erapaiva,
        summa: c.summa,
        viitenumero: c.viitenumero.clone(),
        laskunumero,
        maksettu: c.maksettu,
        maksupaiva: c.maksupaiva,
        rivit: copy_lines(&c.rivit),
    }
}

} // verus!
