use vstd::prelude::*;

verus! {

/// The body of an echo request and of its reply.
#[derive(Clone, Debug)]
pub struct Message {
    pub message: String,
}

/// The error envelope: one human-readable description.
#[derive(Clone, Debug)]
pub struct BadRequest {
    pub error: String,
}

/// One row of the addon catalog.
///
/// Only the identifier and the repository path are always there; every other
/// column may be empty in the table.
#[derive(Clone, Debug)]
pub struct Addon {
    pub id: i64,
    pub repository: String,
    pub repository_name: Option<String>,
    pub source: Option<String>,
    pub description: Option<String>,
    pub homepage: Option<String>,
    pub image_url: Option<String>,
    pub owner_image_url: Option<String>,
    pub owner_name: Option<String>,
    pub total_download_count: Option<i64>,
    pub updated_at: Option<String>,
}

/// The catalog reply: the addons and how many there are.
///
/// The count is taken from the list when the reply is built and can never
/// drift from it.
pub struct AddonResponse {
    addons: Vec<Addon>,
    count: usize,
}

impl AddonResponse {
    #[verifier::type_invariant]
    spec fn count_matches(&self) -> bool {
        self.count == self.addons.len()
    }

    /// The addons of the reply, in order.
    pub closed spec fn spec_addons(&self) -> Seq<Addon> {
        self.addons@
    }

    pub fn new(addons: Vec<Addon>) -> (r: AddonResponse)
        ensures
            r.spec_addons() == addons@,
    {
        let count = addons.len();
        AddonResponse { addons, count }
    }

    pub fn addons(&self) -> (r: &Vec<Addon>)
        ensures
            r@ == self.spec_addons(),
    {
        &self.addons
    }

    /// The count that the reply carries: always the number of its addons.
    pub fn count(&self) -> (r: usize)
        ensures
            r == self.spec_addons().len(),
    {
        proof {
            use_type_invariant(self);
        }
        self.count
    }

    /// Gives the addons back, leaving the reply behind.
    pub fn into_addons(self) -> (r: Vec<Addon>)
        ensures
            r@ == self.spec_addons(),
    {
        self.addons
    }
}

} // verus!
