use vstd::prelude::*;

verus! {

/// One patron. Patrons are created once and never change; like
/// books, they are addressed by position in the roster.
#[derive(Debug)]
pub struct Patron {
    pub name: String,
}

/// The fixed roster the simulation starts from: four patrons with
/// fixed names, in a fixed order.
pub fn create_sample_patrons() -> (r: Vec<Patron>)
    ensures
        r@.len() == 4,
        r@[0].name@ == "Kostis"@,
        r@[1].name@ == "Christina"@,
        r@[2].name@ == "Daphne"@,
        r@[3].name@ == "Theodora"@,
{
    let mut patrons: Vec<Patron> = Vec::new();
    patrons.push(Patron { name: String::from_str("Kostis") });
    patrons.push(Patron { name: String::from_str("Christina") });
    patrons.push(Patron { name: String::from_str("Daphne") });
    patrons.push(Patron { name: String::from_str("Theodora") });
    patrons
}

} // verus!
