//! The fixed catalog of logical session names offered by the picker.
use vstd::prelude::*;

verus! {

/// One catalog entry: a logical session name and a line describing it.
pub struct Session {
    pub name: String,
    pub description: String,
}

/// The names of a catalog, in catalog order.
pub open spec fn names_of(catalog: Seq<Session>) -> Seq<Seq<char>> {
    Seq::new(catalog.len(), |i: int| catalog[i].name@)
}

impl Session {
    pub fn new(name: &str, description: &str) -> (r: Session)
        ensures
            r.name@ == name@,
            r.description@ == description@,
    {
        Session { name: name.to_owned(), description: description.to_owned() }
    }
}

/// The catalog the picker offers by default.
pub fn default_catalog() -> (r: Vec<Session>)
    ensures
        r@.len() == 10,
        r@[0].name@ == "energyboard"@,
        r@[1].name@ == "backoffice"@,
        r@[2].name@ == "easyasset"@,
        r@[3].name@ == "elixir"@,
        r@[4].name@ == "gappel-solutions"@,
        r@[5].name@ == "decon"@,
        r@[6].name@ == "screensaver"@,
        r@[7].name@ == "lazychat"@,
        r@[8].name@ == "new"@,
        r@[9].name@ == "welcome"@,
{
    vec![
        Session::new("energyboard", "Energy management portal"),
        Session::new("backoffice", "Admin backend systems"),
        Session::new("easyasset", "Asset tracking platform"),
        Session::new("elixir", "Elixir projects"),
        Session::new("gappel-solutions", "Company solutions"),
        Session::new("decon", "Decon project"),
        Session::new("screensaver", "Screensaver development"),
        Session::new("lazychat", "Lazychat terminal chat client"),
        Session::new("new", "Start a new session"),
        Session::new("welcome", "Return to this screen"),
    ]
}

/// The naming scheme of a catalog: its names, in catalog order.
pub fn scheme_of(catalog: &Vec<Session>) -> (r: Vec<String>)
    ensures
        r@.len() == catalog@.len(),
        forall|i: int| 0 <= i < r@.len() ==> #[trigger] r@[i]@ == catalog@[i].name@,
{
    let mut r: Vec<String> = Vec::new();
    for i in 0..catalog.len()
        invariant
            r@.len() == i,
            forall|k: int| 0 <= k < i ==> #[trigger] r@[k]@ == catalog@[k].name@,
    {
        r.push(catalog[i].name.clone());
    }
    r
}

} // verus!
