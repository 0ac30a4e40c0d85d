use laskutin::calendar::Date;
use laskutin::database::Database;
use laskutin::models::{
    CreateAddress, CreateHousehold, CreateMember, CreateMembershipFee, CreateOrganization, DbError,
    MemberType,
};
use laskutin::records::{NewMember, Residence, StreetAddress};

fn new_member(first: &str, last: &str) -> CreateMember {
    CreateMember {
        etunimi: first.to_string(),
        sukunimi: last.to_string(),
        henkilotunnus: None,
        syntymaaika: None,
        puhelinnumero: Some("040 123".to_string()),
        sahkoposti: None,
        osoite_id: 0,
        liittymispaiva: Date { year: 2024, month: 2, day: 1 },
        jasentyyppi: MemberType::Varsinainen,
        aktiivinen: true,
    }
}

fn request(residence: Residence, first: &str) -> NewMember {
    NewMember {
        residence,
        katuosoite: "Puistokatu 5".to_string(),
        postinumero: "20100".to_string(),
        postitoimipaikka: "Turku".to_string(),
        member: new_member(first, "Laine"),
    }
}

#[test]
fn organization_profile_is_set_and_kept() {
    let mut db = Database::new();
    assert!(db.get_organization().is_none());
    let data = CreateOrganization {
        nimi: "Yhdistys ry".to_string(),
        katuosoite: "Katu 1".to_string(),
        postinumero: "00100".to_string(),
        postitoimipaikka: "Helsinki".to_string(),
        puhelinnumero: None,
        sahkoposti: None,
        y_tunnus: Some("1234567-8".to_string()),
        pankkitili: None,
        bic: None,
    };
    let o = db.update_organization(data.clone());
    assert_eq!(o.id, 1);
    assert_eq!(o.nimi, "Yhdistys ry");
    let again = db.update_organization(CreateOrganization { nimi: "Uusi ry".to_string(), ..data });
    assert_eq!(again.id, 1);
    assert_eq!(db.get_organization().unwrap().nimi, "Uusi ry");
}

#[test]
fn new_records_get_next_ids() {
    let mut db = Database::new();
    let h = db
        .create_household(CreateHousehold {
            talouden_nimi: Some("Laine".to_string()),
            vastaanottaja: None,
            laskutusosoite_sama: true,
            laskutusosoite_id: None,
        })
        .unwrap();
    assert_eq!(h.id, 1);
    let a = db
        .create_address(CreateAddress {
            katuosoite: "Katu 2".to_string(),
            postinumero: "00200".to_string(),
            postitoimipaikka: "Espoo".to_string(),
            talous_id: h.id,
        })
        .unwrap();
    assert_eq!(a.id, 1);
    let mut data = new_member("Aino", "Laine");
    data.osoite_id = a.id;
    let m1 = db.create_member(data.clone()).unwrap();
    let m2 = db.create_member(data).unwrap();
    assert_eq!((m1.id, m2.id), (1, 2));
    assert_eq!(db.get_member_address_id(2), Ok(1));
    assert_eq!(db.get_member_address_id(3), Err(DbError::NotFound(3)));
}

#[test]
fn updating_member_keeps_id() {
    let mut db = Database::new();
    db.create_member(new_member("Aino", "Laine")).unwrap();
    let m = db.update_member(1, new_member("Aina", "Laine")).unwrap();
    assert_eq!(m.id, 1);
    assert_eq!(db.members[0].etunimi, "Aina");
    assert_eq!(db.update_member(5, new_member("X", "Y")).unwrap_err(), DbError::NotFound(5));
}

#[test]
fn fee_catalog_holds_one_fee_per_year_and_type() {
    let mut db = Database::new();
    let data = CreateMembershipFee { vuosi: 2024, jasentyyppi: MemberType::Kannatus, summa: 4000 };
    let f = db.create_membership_fee(data).unwrap();
    assert_eq!(f.id, 1);
    assert!(matches!(db.create_membership_fee(data), Err(DbError::Validation(_))));
    let other = CreateMembershipFee { vuosi: 2025, jasentyyppi: MemberType::Kannatus, summa: 4500 };
    let g = db.create_membership_fee(other).unwrap();
    assert_eq!(g.id, 2);
    assert!(matches!(db.update_membership_fee(2, data), Err(DbError::Validation(_))));
    let raised = CreateMembershipFee { summa: 4200, ..data };
    assert_eq!(db.update_membership_fee(1, raised).unwrap().summa, 4200);
    assert_eq!(db.resolve_fee(2024, MemberType::Kannatus), Some(4200));
    assert_eq!(db.delete_membership_fee(1), Ok(()));
    assert_eq!(db.delete_membership_fee(1), Err(DbError::NotFound(1)));
    assert_eq!(db.resolve_fee(2024, MemberType::Kannatus), None);
}

#[test]
fn member_in_own_household() {
    let mut db = Database::new();
    let m = db.create_member_with_address(request(Residence::Own, "Aino")).unwrap();
    assert_eq!(db.households.len(), 1);
    assert_eq!(db.households[0].talouden_nimi, Some("Aino Laine".to_string()));
    assert_eq!(db.households[0].vastaanottaja, Some("Aino Laine".to_string()));
    assert_eq!(db.addresses[0].talous_id, db.households[0].id);
    assert_eq!(m.osoite_id, db.addresses[0].id);
    assert_eq!(db.addresses[0].postitoimipaikka, "Turku");
}

#[test]
fn member_joins_existing_household() {
    let mut db = Database::new();
    db.create_member_with_address(request(Residence::NewHousehold(Some("Lait".to_string())), "Aino"))
        .unwrap();
    assert_eq!(db.households[0].talouden_nimi, Some("Lait".to_string()));
    let m = db.create_member_with_address(request(Residence::Household(1), "Eino")).unwrap();
    assert_eq!(m.id, 2);
    assert_eq!(m.osoite_id, 1);
    assert_eq!(db.households.len(), 1);
    assert_eq!(db.get_household_member_count(1), 2);
    let r = db.create_member_with_address(request(Residence::Household(8), "Ville"));
    assert_eq!(r.unwrap_err(), DbError::NotFound(8));
    assert_eq!(db.members.len(), 2);
}

#[test]
fn household_with_address_and_address_updates() {
    let mut db = Database::new();
    let h = db
        .create_household_with_address(
            CreateHousehold {
                talouden_nimi: Some("Koti".to_string()),
                vastaanottaja: None,
                laskutusosoite_sama: true,
                laskutusosoite_id: None,
            },
            "Vanha 1".to_string(),
            "90100".to_string(),
            "Oulu".to_string(),
        )
        .unwrap();
    assert_eq!(db.addresses[0].talous_id, h.id);
    db.update_household_address(h.id, "Uusi 2".to_string(), "90120".to_string(), "Oulu".to_string());
    assert_eq!(db.addresses[0].katuosoite, "Uusi 2");
    assert_eq!(db.update_address(1, "Kolmas 3".to_string(), "90130".to_string(), "Oulu".to_string()), Ok(()));
    assert_eq!(db.addresses[0].katuosoite, "Kolmas 3");
    assert_eq!(
        db.update_address(4, "X".to_string(), "Y".to_string(), "Z".to_string()),
        Err(DbError::NotFound(4))
    );
    let renamed = db
        .update_household(
            h.id,
            CreateHousehold {
                talouden_nimi: Some("Talo".to_string()),
                vastaanottaja: Some("Perhe".to_string()),
                laskutusosoite_sama: true,
                laskutusosoite_id: None,
            },
        )
        .unwrap();
    assert_eq!(renamed.vastaanottaja, Some("Perhe".to_string()));
}

fn street(k: &str) -> StreetAddress {
    StreetAddress {
        katuosoite: k.to_string(),
        postinumero: "00500".to_string(),
        postitoimipaikka: "Helsinki".to_string(),
    }
}

#[test]
fn member_update_with_address_moves_household_address() {
    let mut db = Database::new();
    db.create_member_with_address(request(Residence::Own, "Aino")).unwrap();
    let m = db
        .update_member_with_address(1, Some(street("Uusikatu 9")), new_member("Aina", "Laine"))
        .unwrap();
    assert_eq!(m.osoite_id, 1);
    assert_eq!(m.etunimi, "Aina");
    assert_eq!(db.addresses[0].katuosoite, "Uusikatu 9");
    assert_eq!(
        db.update_member_with_address(9, None, new_member("X", "Y")).unwrap_err(),
        DbError::NotFound(9)
    );
    db.addresses.clear();
    assert_eq!(
        db.update_member_with_address(1, Some(street("Muu 1")), new_member("Aina", "Laine"))
            .unwrap_err(),
        DbError::NotFound(1)
    );
    assert_eq!(db.members[0].etunimi, "Aina");
}

#[test]
fn household_update_with_address() {
    let mut db = Database::new();
    db.create_member_with_address(request(Residence::Own, "Aino")).unwrap();
    let data = CreateHousehold {
        talouden_nimi: Some("Laineet".to_string()),
        vastaanottaja: Some("Perhe Laine".to_string()),
        laskutusosoite_sama: true,
        laskutusosoite_id: None,
    };
    let h = db.update_household_with_address(1, data.clone(), Some(street("Toinen 2"))).unwrap();
    assert_eq!(h.talouden_nimi, Some("Laineet".to_string()));
    assert_eq!(db.addresses[0].katuosoite, "Toinen 2");
    assert_eq!(db.update_household_with_address(5, data, None).unwrap_err(), DbError::NotFound(5));
}
