//! Users of the placeholder data set.

use vstd::prelude::*;

use crate::codec::{
    as_record, decode_list, decode_list_view, distinct_names, encode_view, lemma_present_field,
    opt_int, opt_int_view, views, Entry, JsonRecord, ObjectBuilder,
};
use crate::fixtures::{has_id, is_last_with_id, last_with_id, Identified};
use crate::json::{
    as_opt_i32, as_str, field_of, get_field, get_opt_i32, get_str, lemma_object_view, Json, JsonV,
};

verus! {

/// A position on the globe, as written.
#[derive(Debug, Clone, PartialEq)]
pub struct Geo {
    pub lat: String,
    pub lng: String,
}

/// The value of a `Geo`, its texts as sequences of characters.
pub struct GeoV {
    pub lat: Seq<char>,
    pub lng: Seq<char>,
}

impl View for Geo {
    type V = GeoV;

    open spec fn view(&self) -> GeoV {
        GeoV {
            lat: self.lat@,
            lng: self.lng@,
        }
    }
}

impl JsonRecord for Geo {
    open spec fn entries(v: GeoV) -> Seq<Entry> {
        seq![
            ("lat"@, Some(JsonV::Str(v.lat))),
            ("lng"@, Some(JsonV::Str(v.lng))),
        ]
    }

    open spec fn decode_view(j: JsonV) -> Option<GeoV> {
        match j {
            JsonV::Object(fs) => {
                let lat = as_str(field_of(fs, "lat"@));
                let lng = as_str(field_of(fs, "lng"@));
                if lat is Some && lng is Some {
                    Some(GeoV {
                        lat: lat->0,
                        lng: lng->0,
                    })
                } else {
                    None
                }
            },
            _ => None,
        }
    }

    proof fn lemma_distinct_names(v: GeoV) {
        reveal_strlit("lat");
        reveal_strlit("lng");
        assert("lat"@.len() == 3 && "lng"@.len() == 3);
        assert("lat"@[1] == 'a' && "lng"@[1] == 'n');
        assert(distinct_names(Self::entries(v)));
    }

    proof fn lemma_round_trip(v: GeoV) {
        Self::lemma_distinct_names(v);
        lemma_present_field(Self::entries(v), 0);
        lemma_present_field(Self::entries(v), 1);
    }

    fn to_json(&self) -> (r: Json) {
        let mut o = ObjectBuilder::new();
        o.field("lat", Json::Str(self.lat.clone()));
        o.field("lng", Json::Str(self.lng.clone()));
        assert(o.entries() =~= Self::entries(self@));
        o.finish()
    }

    fn from_json(j: &Json) -> (r: Option<Geo>) {
        match j {
            Json::Object(fields) => {
                proof {
                    lemma_object_view(*fields);
                }
                let lat = get_str(fields, "lat")?;
                let lng = get_str(fields, "lng")?;
                Some(Geo { lat, lng })
            },
            _ => None,
        }
    }
}

/// A postal address.
#[derive(Debug, Clone, PartialEq)]
pub struct Address {
    pub street: String,
    pub suite: String,
    pub city: String,
    pub zipcode: String,
    pub geo: Geo,
}

/// The value of a `Address`, its texts as sequences of characters.
pub struct AddressV {
    pub street: Seq<char>,
    pub suite: Seq<char>,
    pub city: Seq<char>,
    pub zipcode: Seq<char>,
    pub geo: GeoV,
}

impl View for Address {
    type V = AddressV;

    open spec fn view(&self) -> AddressV {
        AddressV {
            street: self.street@,
            suite: self.suite@,
            city: self.city@,
            zipcode: self.zipcode@,
            geo: self.geo@,
        }
    }
}

impl JsonRecord for Address {
    open spec fn entries(v: AddressV) -> Seq<Entry> {
        seq![
            ("street"@, Some(JsonV::Str(v.street))),
            ("suite"@, Some(JsonV::Str(v.suite))),
            ("city"@, Some(JsonV::Str(v.city))),
            ("zipcode"@, Some(JsonV::Str(v.zipcode))),
            ("geo"@, Some(encode_view::<Geo>(v.geo))),
        ]
    }

    open spec fn decode_view(j: JsonV) -> Option<AddressV> {
        match j {
            JsonV::Object(fs) => {
                let street = as_str(field_of(fs, "street"@));
                let suite = as_str(field_of(fs, "suite"@));
                let city = as_str(field_of(fs, "city"@));
                let zipcode = as_str(field_of(fs, "zipcode"@));
                let geo = as_record::<Geo>(field_of(fs, "geo"@));
                if street is Some && suite is Some && city is Some && zipcode is Some && geo is Some {
                    Some(AddressV {
                        street: street->0,
                        suite: suite->0,
                        city: city->0,
                        zipcode: zipcode->0,
                        geo: geo->0,
                    })
                } else {
                    None
                }
            },
            _ => None,
        }
    }

    proof fn lemma_distinct_names(v: AddressV) {
        reveal_strlit("street");
        reveal_strlit("suite");
        reveal_strlit("city");
        reveal_strlit("zipcode");
        reveal_strlit("geo");
        assert("street"@.len() == 6 && "suite"@.len() == 5 && "city"@.len() == 4 && "zipcode"@.len() == 7 && "geo"@.len() == 3);
        assert(distinct_names(Self::entries(v)));
    }

    proof fn lemma_round_trip(v: AddressV) {
        Self::lemma_distinct_names(v);
        lemma_present_field(Self::entries(v), 0);
        lemma_present_field(Self::entries(v), 1);
        lemma_present_field(Self::entries(v), 2);
        lemma_present_field(Self::entries(v), 3);
        lemma_present_field(Self::entries(v), 4);
        Geo::lemma_round_trip(v.geo);
    }

    fn to_json(&self) -> (r: Json) {
        let mut o = ObjectBuilder::new();
        o.field("street", Json::Str(self.street.clone()));
        o.field("suite", Json::Str(self.suite.clone()));
        o.field("city", Json::Str(self.city.clone()));
        o.field("zipcode", Json::Str(self.zipcode.clone()));
        o.field("geo", self.geo.to_json());
        assert(o.entries() =~= Self::entries(self@));
        o.finish()
    }

    fn from_json(j: &Json) -> (r: Option<Address>) {
        match j {
            Json::Object(fields) => {
                proof {
                    lemma_object_view(*fields);
                }
                let street = get_str(fields, "street")?;
                let suite = get_str(fields, "suite")?;
                let city = get_str(fields, "city")?;
                let zipcode = get_str(fields, "zipcode")?;
                let geo = Geo::from_json(get_field(fields, "geo")?)?;
                Some(Address { street, suite, city, zipcode, geo })
            },
            _ => None,
        }
    }
}

/// The company a user works for.
#[derive(Debug, Clone, PartialEq)]
pub struct Company {
    pub name: String,
    pub catch_phrase: String,
    pub bs: String,
}

/// The value of a `Company`, its texts as sequences of characters.
pub struct CompanyV {
    pub name: Seq<char>,
    pub catch_phrase: Seq<char>,
    pub bs: Seq<char>,
}

impl View for Company {
    type V = CompanyV;

    open spec fn view(&self) -> CompanyV {
        CompanyV {
            name: self.name@,
            catch_phrase: self.catch_phrase@,
            bs: self.bs@,
        }
    }
}

impl JsonRecord for Company {
    open spec fn entries(v: CompanyV) -> Seq<Entry> {
        seq![
            ("name"@, Some(JsonV::Str(v.name))),
            ("catchPhrase"@, Some(JsonV::Str(v.catch_phrase))),
            ("bs"@, Some(JsonV::Str(v.bs))),
        ]
    }

    open spec fn decode_view(j: JsonV) -> Option<CompanyV> {
        match j {
            JsonV::Object(fs) => {
                let name = as_str(field_of(fs, "name"@));
                let catch_phrase = as_str(field_of(fs, "catchPhrase"@));
                let bs = as_str(field_of(fs, "bs"@));
                if name is Some && catch_phrase is Some && bs is Some {
                    Some(CompanyV {
                        name: name->0,
                        catch_phrase: catch_phrase->0,
                        bs: bs->0,
                    })
                } else {
                    None
                }
            },
            _ => None,
        }
    }

    proof fn lemma_distinct_names(v: CompanyV) {
        reveal_strlit("name");
        reveal_strlit("catchPhrase");
        reveal_strlit("bs");
        assert("name"@.len() == 4 && "catchPhrase"@.len() == 11 && "bs"@.len() == 2);
        assert(distinct_names(Self::entries(v)));
    }

    proof fn lemma_round_trip(v: CompanyV) {
        Self::lemma_distinct_names(v);
        lemma_present_field(Self::entries(v), 0);
        lemma_present_field(Self::entries(v), 1);
        lemma_present_field(Self::entries(v), 2);
    }

    fn to_json(&self) -> (r: Json) {
        let mut o = ObjectBuilder::new();
        o.field("name", Json::Str(self.name.clone()));
        o.field("catchPhrase", Json::Str(self.catch_phrase.clone()));
        o.field("bs", Json::Str(self.bs.clone()));
        assert(o.entries() =~= Self::entries(self@));
        o.finish()
    }

    fn from_json(j: &Json) -> (r: Option<Company>) {
        match j {
            Json::Object(fields) => {
                proof {
                    lemma_object_view(*fields);
                }
                let name = get_str(fields, "name")?;
                let catch_phrase = get_str(fields, "catchPhrase")?;
                let bs = get_str(fields, "bs")?;
                Some(Company { name, catch_phrase, bs })
            },
            _ => None,
        }
    }
}

/// A user of the placeholder service.
#[derive(Debug, Clone, PartialEq)]
pub struct User {
    pub id: Option<i32>,
    pub name: String,
    pub username: String,
    pub email: String,
    pub address: Address,
    pub phone: String,
    pub website: String,
    pub company: Company,
}

/// The value of a `User`, its texts as sequences of characters.
pub struct UserV {
    pub id: Option<i32>,
    pub name: Seq<char>,
    pub username: Seq<char>,
    pub email: Seq<char>,
    pub address: AddressV,
    pub phone: Seq<char>,
    pub website: Seq<char>,
    pub company: CompanyV,
}

impl View for User {
    type V = UserV;

    open spec fn view(&self) -> UserV {
        UserV {
            id: self.id,
            name: self.name@,
            username: self.username@,
            email: self.email@,
            address: self.address@,
            phone: self.phone@,
            website: self.website@,
            company: self.company@,
        }
    }
}

impl JsonRecord for User {
    open spec fn entries(v: UserV) -> Seq<Entry> {
        seq![
            ("id"@, opt_int_view(v.id)),
            ("name"@, Some(JsonV::Str(v.name))),
            ("username"@, Some(JsonV::Str(v.username))),
            ("email"@, Some(JsonV::Str(v.email))),
            ("address"@, Some(encode_view::<Address>(v.address))),
            ("phone"@, Some(JsonV::Str(v.phone))),
            ("website"@, Some(JsonV::Str(v.website))),
            ("company"@, Some(encode_view::<Company>(v.company))),
        ]
    }

    open spec fn decode_view(j: JsonV) -> Option<UserV> {
        match j {
            JsonV::Object(fs) => {
                let id = as_opt_i32(field_of(fs, "id"@));
                let name = as_str(field_of(fs, "name"@));
                let username = as_str(field_of(fs, "username"@));
                let email = as_str(field_of(fs, "email"@));
                let address = as_record::<Address>(field_of(fs, "address"@));
                let phone = as_str(field_of(fs, "phone"@));
                let website = as_str(field_of(fs, "website"@));
                let company = as_record::<Company>(field_of(fs, "company"@));
                if id is Some && name is Some && username is Some && email is Some && address is Some && phone is Some && website is Some && company is Some {
                    Some(UserV {
                        id: id->0,
                        name: name->0,
                        username: username->0,
                        email: email->0,
                        address: address->0,
                        phone: phone->0,
                        website: website->0,
                        company: company->0,
                    })
                } else {
                    None
                }
            },
            _ => None,
        }
    }

    proof fn lemma_distinct_names(v: UserV) {
        reveal_strlit("id");
        reveal_strlit("name");
        reveal_strlit("username");
        reveal_strlit("email");
        reveal_strlit("address");
        reveal_strlit("phone");
        reveal_strlit("website");
        reveal_strlit("company");
        assert("id"@.len() == 2 && "name"@.len() == 4 && "username"@.len() == 8 && "email"@.len() == 5 && "address"@.len() == 7 && "phone"@.len() == 5 && "website"@.len() == 7 && "company"@.len() == 7);
        assert("email"@[0] == 'e' && "phone"@[0] == 'p');
        assert("address"@[0] == 'a' && "website"@[0] == 'w');
        assert("address"@[0] == 'a' && "company"@[0] == 'c');
        assert("website"@[0] == 'w' && "company"@[0] == 'c');
        assert(distinct_names(Self::entries(v)));
    }

    proof fn lemma_round_trip(v: UserV) {
        Self::lemma_distinct_names(v);
        lemma_present_field(Self::entries(v), 0);
        lemma_present_field(Self::entries(v), 1);
        lemma_present_field(Self::entries(v), 2);
        lemma_present_field(Self::entries(v), 3);
        lemma_present_field(Self::entries(v), 4);
        lemma_present_field(Self::entries(v), 5);
        lemma_present_field(Self::entries(v), 6);
        lemma_present_field(Self::entries(v), 7);
        Address::lemma_round_trip(v.address);
        Company::lemma_round_trip(v.company);
    }

    fn to_json(&self) -> (r: Json) {
        let mut o = ObjectBuilder::new();
        o.opt_field("id", opt_int(self.id));
        o.field("name", Json::Str(self.name.clone()));
        o.field("username", Json::Str(self.username.clone()));
        o.field("email", Json::Str(self.email.clone()));
        o.field("address", self.address.to_json());
        o.field("phone", Json::Str(self.phone.clone()));
        o.field("website", Json::Str(self.website.clone()));
        o.field("company", self.company.to_json());
        assert(o.entries() =~= Self::entries(self@));
        o.finish()
    }

    fn from_json(j: &Json) -> (r: Option<User>) {
        match j {
            Json::Object(fields) => {
                proof {
                    lemma_object_view(*fields);
                }
                let id = get_opt_i32(fields, "id")?;
                let name = get_str(fields, "name")?;
                let username = get_str(fields, "username")?;
                let email = get_str(fields, "email")?;
                let address = Address::from_json(get_field(fields, "address")?)?;
                let phone = get_str(fields, "phone")?;
                let website = get_str(fields, "website")?;
                let company = Company::from_json(get_field(fields, "company")?)?;
                Some(User { id, name, username, email, address, phone, website, company })
            },
            _ => None,
        }
    }
}

impl Identified for User {
    open spec fn spec_id(&self) -> Option<i32> {
        self.id
    }

    fn record_id(&self) -> (r: Option<i32>) {
        self.id
    }
}

/// The users of a fixture document, in document order. A document that
/// is no array of users is a broken fixture, which callers rule out.
pub fn get_all(document: &Json) -> (r: Vec<User>)
    requires
        decode_list_view::<User>(document@) is Some,
    ensures
        decode_list_view::<User>(document@) == Some(views(r@)),
{
    decode_list(document).unwrap()
}

/// The user of `users` whose identifier is `id`: the last such one, where
/// several carry it. A fixture set without it is a broken fixture, which
/// callers rule out.
pub fn get(users: &Vec<User>, id: i32) -> (r: &User)
    requires
        has_id(users@, id),
    ensures
        exists|i: int| is_last_with_id(users@, id, i) && users@[i] == *r,
{
    let i = last_with_id(users, id).unwrap();
    &users[i]
}

} // verus!
