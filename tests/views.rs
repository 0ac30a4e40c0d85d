use laskutin::calendar::Date;
use laskutin::database::Database;
use laskutin::models::{Address, Household, Member, MemberType, MembershipFee};
use laskutin::models::Invoice;

fn date(year: i32, month: u32, day: u32) -> Date {
    Date { year, month, day }
}

fn register() -> Database {
    let mut db = Database::new();
    db.households = vec![
        Household {
            id: 1,
            talouden_nimi: Some("Mäkinen".to_string()),
            vastaanottaja: None,
            laskutusosoite_sama: false,
            laskutusosoite_id: Some(30),
        },
        Household {
            id: 2,
            talouden_nimi: None,
            vastaanottaja: None,
            laskutusosoite_sama: true,
            laskutusosoite_id: None,
        },
    ];
    let address = |id: i64, talous_id: i64, street: &str| Address {
        id,
        katuosoite: street.to_string(),
        postinumero: "40100".to_string(),
        postitoimipaikka: "Jyväskylä".to_string(),
        talous_id,
    };
    db.addresses = vec![address(10, 1, "Koti 1"), address(20, 2, "Koti 2"), address(30, 1, "Lasku 3")];
    let member = |id: i64, osoite_id: i64| Member {
        id,
        etunimi: format!("E{}", id),
        sukunimi: "Mäkinen".to_string(),
        henkilotunnus: None,
        syntymaaika: None,
        puhelinnumero: None,
        sahkoposti: None,
        osoite_id,
        liittymispaiva: date(2022, 1, 1),
        jasentyyppi: MemberType::Varsinainen,
        aktiivinen: true,
    };
    db.members = vec![member(1, 10), member(2, 99), member(3, 20), member(4, 10)];
    db.membership_fees = vec![MembershipFee {
        id: 1,
        vuosi: 2024,
        jasentyyppi: MemberType::Varsinainen,
        summa: 1500,
    }];
    db
}

#[test]
fn members_come_with_address_and_household() {
    let db = register();
    let rows = db.get_members();
    let ids: Vec<i64> = rows.iter().map(|r| r.member.id).collect();
    assert_eq!(ids, vec![1, 3, 4]);
    assert_eq!(rows[0].address.id, 10);
    assert_eq!(rows[0].household.id, 1);
    assert_eq!(rows[1].household.id, 2);
}

#[test]
fn households_come_with_address_and_size() {
    let db = register();
    let rows = db.get_households_with_addresses();
    assert_eq!(rows.len(), 2);
    assert_eq!(rows[0].household.id, 2);
    assert_eq!(rows[0].address.as_ref().map(|a| a.id), Some(20));
    assert_eq!(rows[0].member_count, 1);
    assert_eq!(rows[1].household.id, 1);
    assert_eq!(rows[1].address.as_ref().map(|a| a.id), Some(10));
    assert_eq!(rows[1].member_count, 2);
}

#[test]
fn invoices_come_with_details_and_billing_address() {
    let mut db = register();
    db.create_invoices_on(2024, date(2024, 4, 1), date(2024, 5, 1)).unwrap();
    let rows = db.get_invoices();
    assert_eq!(rows.len(), 2);
    assert_eq!(rows[0].invoice.talous_id, 1);
    assert_eq!(rows[0].address.id, 10);
    assert_eq!(rows[0].billing_address.as_ref().map(|a| a.katuosoite.clone()), Some("Lasku 3".to_string()));
    assert_eq!(rows[0].lines.len(), 2);
    assert_eq!(rows[0].lines[1].member.id, 4);
    assert_eq!(rows[0].lines[1].line.summa, 1500);
    assert!(rows[1].billing_address.is_none());
    db.delete_household(2).unwrap_err();
}

fn named(id: i64, first: &str, last: &str) -> Member {
    Member {
        id,
        etunimi: first.to_string(),
        sukunimi: last.to_string(),
        henkilotunnus: None,
        syntymaaika: None,
        puhelinnumero: None,
        sahkoposti: None,
        osoite_id: 10,
        liittymispaiva: date(2022, 1, 1),
        jasentyyppi: MemberType::Varsinainen,
        aktiivinen: true,
    }
}

#[test]
fn members_are_listed_by_last_then_first_name() {
    let mut db = register();
    db.members = vec![
        named(1, "Ville", "B"),
        named(2, "Anna", "A"),
        named(3, "Aaro", "B"),
        named(4, "Zed", "Ab"),
        named(5, "Ö", "a"),
    ];
    let ids: Vec<i64> = db.get_members().iter().map(|r| r.member.id).collect();
    assert_eq!(ids, vec![2, 4, 3, 1, 5]);
}

#[test]
fn invoice_lines_are_listed_by_member_name() {
    let mut db = register();
    db.members = vec![named(1, "Ville", "B"), named(2, "Anna", "A")];
    db.create_invoices_on(2024, date(2024, 4, 1), date(2024, 5, 1)).unwrap();
    let rows = db.get_invoices();
    let ids: Vec<i64> = rows[0].lines.iter().map(|l| l.member.id).collect();
    assert_eq!(ids, vec![2, 1]);
    assert_eq!(rows[0].invoice.rivit[0].jasen_id, 1);
}

#[test]
fn invoices_are_listed_newest_first() {
    let mut db = register();
    db.create_invoices_on(2023, date(2023, 4, 1), date(2023, 5, 1)).unwrap();
    db.membership_fees.push(MembershipFee {
        id: 2,
        vuosi: 2023,
        jasentyyppi: MemberType::Varsinainen,
        summa: 1000,
    });
    db.create_invoices_on(2024, date(2024, 2, 10), date(2024, 3, 11)).unwrap();
    let dates: Vec<Date> = db.get_invoices().iter().map(|r| r.invoice.luontipaiva).collect();
    assert_eq!(dates.len(), 2);
    assert_eq!(dates[0], date(2024, 2, 10));
    assert_eq!(dates[1], date(2024, 2, 10));
    let mut older: Vec<Invoice> = db.invoices.clone();
    older[0].luontipaiva = date(2023, 12, 31);
    older[1].luontipaiva = date(2024, 1, 1);
    db.invoices = older;
    let dates: Vec<Date> = db.get_invoices().iter().map(|r| r.invoice.luontipaiva).collect();
    assert_eq!(dates, vec![date(2024, 1, 1), date(2023, 12, 31)]);
}

#[test]
fn households_are_listed_by_name() {
    let mut db = register();
    db.households[1].talouden_nimi = Some("Aalto".to_string());
    db.households.push(Household {
        id: 3,
        talouden_nimi: None,
        vastaanottaja: None,
        laskutusosoite_sama: true,
        laskutusosoite_id: None,
    });
    let ids: Vec<i64> = db.get_households().iter().map(|h| h.id).collect();
    assert_eq!(ids, vec![3, 2, 1]);
    let rows: Vec<i64> = db.get_households_with_addresses().iter().map(|r| r.household.id).collect();
    assert_eq!(rows, vec![3, 2, 1]);
}

#[test]
fn fees_are_listed_by_year_then_type() {
    let mut db = register();
    let fee = |id: i64, vuosi: i32, t: MemberType| MembershipFee { id, vuosi, jasentyyppi: t, summa: 100 };
    db.membership_fees = vec![
        fee(1, 2023, MemberType::Varsinainen),
        fee(2, 2024, MemberType::Varsinainen),
        fee(3, 2024, MemberType::Kannatus),
        fee(4, 2024, MemberType::Kunnia),
    ];
    let ids: Vec<i64> = db.get_membership_fees().iter().map(|f| f.id).collect();
    assert_eq!(ids, vec![3, 4, 2, 1]);
}
