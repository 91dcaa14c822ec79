//! Radar brands, the ways to look for them, and what is analysed in their picture.
use vstd::prelude::*;

use crate::text::{eq_ignore_case, lower_all, same_ignoring_case};

verus! {

/// What is done with targets: tracked as well as trailed, only trailed, or neither.
#[derive(Clone, Copy, Debug, PartialEq, Eq, Structural)]
pub enum TargetMode {
    Arpa,
    Trails,
    Off,
}

impl Default for TargetMode {
    fn default() -> (mode: TargetMode)
        ensures
            mode == TargetMode::Arpa,
    {
        TargetMode::Arpa
    }
}

/// The manufacturer of a radar.
#[derive(Clone, Copy, Debug, PartialEq, Eq, Structural, Hash)]
pub enum Brand {
    Furuno,
    Garmin,
    Navico,
    Raymarine,
}

impl Brand {
    /// The short form of the brand that starts a radar id.
    pub open spec fn prefix(self) -> Seq<char> {
        match self {
            Brand::Furuno => "fur"@,
            Brand::Garmin => "gar"@,
            Brand::Navico => "nav"@,
            Brand::Raymarine => "ray"@,
        }
    }

    /// The name of the brand.
    pub open spec fn spec_name(self) -> Seq<char> {
        match self {
            Brand::Furuno => "Furuno"@,
            Brand::Garmin => "Garmin"@,
            Brand::Navico => "Navico"@,
            Brand::Raymarine => "Raymarine"@,
        }
    }

    /// The short form of the brand that starts a radar id.
    pub fn to_prefix(&self) -> (s: &'static str)
        ensures
            s@ == self.prefix(),
    {
        match self {
            Brand::Furuno => "fur",
            Brand::Garmin => "gar",
            Brand::Navico => "nav",
            Brand::Raymarine => "ray",
        }
    }

    /// The name of the brand.
    pub fn to_str(&self) -> (s: &'static str)
        ensures
            s@ == self.spec_name(),
    {
        match self {
            Brand::Furuno => "Furuno",
            Brand::Garmin => "Garmin",
            Brand::Navico => "Navico",
            Brand::Raymarine => "Raymarine",
        }
    }

    /// Reads a brand name, whatever the case of its letters.
    pub fn parse(s: &str) -> (r: Option<Brand>)
        ensures
            match r {
                Some(brand) => same_ignoring_case(s@, brand.spec_name()),
                None => forall|brand: Brand| !same_ignoring_case(s@, #[trigger] brand.spec_name()),
            },
    {
        if eq_ignore_case(s, "furuno") {
            proof {
                brand_names_in_lower_case();
            }
            Some(Brand::Furuno)
        } else if eq_ignore_case(s, "garmin") {
            proof {
                brand_names_in_lower_case();
            }
            Some(Brand::Garmin)
        } else if eq_ignore_case(s, "navico") {
            proof {
                brand_names_in_lower_case();
            }
            Some(Brand::Navico)
        } else if eq_ignore_case(s, "raymarine") {
            proof {
                brand_names_in_lower_case();
            }
            Some(Brand::Raymarine)
        } else {
            proof {
                brand_names_in_lower_case();
            }
            None
        }
    }
}

proof fn brand_names_in_lower_case()
    ensures
        same_ignoring_case("furuno"@, "Furuno"@),
        same_ignoring_case("garmin"@, "Garmin"@),
        same_ignoring_case("navico"@, "Navico"@),
        same_ignoring_case("raymarine"@, "Raymarine"@),
{
    reveal_strlit("furuno");
    reveal_strlit("Furuno");
    reveal_strlit("garmin");
    reveal_strlit("Garmin");
    reveal_strlit("navico");
    reveal_strlit("Navico");
    reveal_strlit("raymarine");
    reveal_strlit("Raymarine");
    assert(lower_all("furuno"@) =~= lower_all("Furuno"@));
    assert(lower_all("garmin"@) =~= lower_all("Garmin"@));
    assert(lower_all("navico"@) =~= lower_all("Navico"@));
    assert(lower_all("raymarine"@) =~= lower_all("Raymarine"@));
}

/// No two brands have names that differ only in case, so reading the name of a brand gives that
/// brand.
pub proof fn brand_names_differ(a: Brand, b: Brand)
    requires
        same_ignoring_case(a.spec_name(), b.spec_name()),
    ensures
        a == b,
{
    reveal_strlit("Furuno");
    reveal_strlit("Garmin");
    reveal_strlit("Navico");
    reveal_strlit("Raymarine");
    assert(lower_all(a.spec_name())[0] == lower_all(b.spec_name())[0]);
}

/// The ways in which radars make themselves known.
#[derive(Clone, Copy, Debug, PartialEq, Eq, Structural)]
pub enum LocatorId {
    GenBR24,
    Gen3Plus,
    Furuno,
    Raymarine,
}

impl LocatorId {
    /// What a locator looks for.
    pub open spec fn spec_name(self) -> Seq<char> {
        match self {
            LocatorId::GenBR24 => "Navico BR24"@,
            LocatorId::Gen3Plus => "Navico 3G/4G/HALO"@,
            LocatorId::Furuno => "Furuno DRSxxxx"@,
            LocatorId::Raymarine => "Raymarine"@,
        }
    }

    /// What a locator looks for.
    pub fn as_str(&self) -> (s: &'static str)
        ensures
            s@ == self.spec_name(),
    {
        match self {
            LocatorId::GenBR24 => "Navico BR24",
            LocatorId::Gen3Plus => "Navico 3G/4G/HALO",
            LocatorId::Furuno => "Furuno DRSxxxx",
            LocatorId::Raymarine => "Raymarine",
        }
    }
}

/// Whether a brand is looked for, given the brand that the user asked for.
pub open spec fn brand_wanted(choice: Option<Brand>, brand: Brand) -> bool {
    match choice {
        Some(only) => only == brand,
        None => true,
    }
}

/// The brands that are looked for, in the order in which their locators are started.
pub open spec fn brands_wanted(choice: Option<Brand>) -> Seq<Brand> {
    seq![Brand::Navico, Brand::Furuno, Brand::Raymarine].filter(
        |brand: Brand| brand_wanted(choice, brand),
    )
}

/// The brands to look for, given the brand that the user asked for. There is no locator for
/// Garmin.
pub fn create_brand_listeners(choice: Option<Brand>) -> (brands: Vec<Brand>)
    ensures
        brands@ == brands_wanted(choice),
{
    let mut brands: Vec<Brand> = Vec::new();
    let ghost wanted = |brand: Brand| brand_wanted(choice, brand);
    let ghost all = seq![Brand::Navico, Brand::Furuno, Brand::Raymarine];
    if choice.unwrap_or(Brand::Navico) == Brand::Navico {
        brands.push(Brand::Navico);
    }
    if choice.unwrap_or(Brand::Furuno) == Brand::Furuno {
        brands.push(Brand::Furuno);
    }
    if choice.unwrap_or(Brand::Raymarine) == Brand::Raymarine {
        brands.push(Brand::Raymarine);
    }
    proof {
        reveal(Seq::filter);
        let two = all.drop_last();
        let one = two.drop_last();
        let zero = one.drop_last();
        assert(zero =~= Seq::<Brand>::empty());
        assert(zero.filter(wanted) =~= Seq::<Brand>::empty());
        assert(one.last() == Brand::Navico);
        assert(two.last() == Brand::Furuno);
        assert(one.filter(wanted) == if wanted(Brand::Navico) {
            zero.filter(wanted).push(Brand::Navico)
        } else {
            zero.filter(wanted)
        });
        assert(two.filter(wanted) == if wanted(Brand::Furuno) {
            one.filter(wanted).push(Brand::Furuno)
        } else {
            one.filter(wanted)
        });
        assert(all.filter(wanted) == if wanted(Brand::Raymarine) {
            two.filter(wanted).push(Brand::Raymarine)
        } else {
            two.filter(wanted)
        });
        assert(brands@ =~= all.filter(wanted));
    }
    brands
}

/// A user who asks for a brand gets this one alone, and a user who asks for none gets all. Garmin radars
/// are not looked for.
pub proof fn asked_for_brands_are_looked_for(choice: Option<Brand>, brand: Brand)
    ensures
        brands_wanted(choice).contains(brand) == (brand != Brand::Garmin && (choice is None || choice
            == Some(brand))),
{
    reveal(Seq::filter);
    let all = seq![Brand::Navico, Brand::Furuno, Brand::Raymarine];
    let wanted = |brand: Brand| brand_wanted(choice, brand);
    let two = all.drop_last();
    let one = two.drop_last();
    let zero = one.drop_last();
    assert(zero.filter(wanted) =~= Seq::<Brand>::empty());
    added_last(one, wanted, brand);
    added_last(two, wanted, brand);
    added_last(all, wanted, brand);
    assert(one.last() == Brand::Navico && two.last() == Brand::Furuno);
    assert(brands_wanted(choice) == all.filter(wanted));
    assert(!zero.filter(wanted).contains(brand));
}

proof fn added_last(brands: Seq<Brand>, wanted: spec_fn(Brand) -> bool, brand: Brand)
    requires
        brands.len() > 0,
    ensures
        brands.filter(wanted).contains(brand) == (brands.drop_last().filter(wanted).contains(brand)
            || (brand == brands.last() && wanted(brand))),
{
    reveal(Seq::filter);
    let before = brands.drop_last().filter(wanted);
    let after = brands.filter(wanted);
    if wanted(brands.last()) {
        assert(after == before.push(brands.last()));
        assert(after[before.len() as int] == brands.last());
        if before.contains(brand) {
            let i = choose|i: int| 0 <= i < before.len() && before[i] == brand;
            assert(after[i] == brand);
        }
    } else {
        assert(after == before);
    }
}

} // verus!
