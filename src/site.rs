use vstd::prelude::*;

verus! {

/// One stored site: a remote endpoint and the credentials used to reach it.
#[derive(Clone, Debug, PartialEq, Eq)]
pub struct SiteData {
    pub id: String,
    pub name: String,
    pub url: String,
    pub username: String,
    pub application_password: String,
}

/// The mathematical value of a [`SiteData`]: its five fields as character
/// sequences.
pub struct SiteView {
    pub id: Seq<char>,
    pub name: Seq<char>,
    pub url: Seq<char>,
    pub username: Seq<char>,
    pub application_password: Seq<char>,
}

impl View for SiteData {
    type V = SiteView;

    open spec fn view(&self) -> SiteView {
        SiteView {
            id: self.id@,
            name: self.name@,
            url: self.url@,
            username: self.username@,
            application_password: self.application_password@,
        }
    }
}

/// The view of a whole collection, record by record.
pub open spec fn sites_view(sites: Seq<SiteData>) -> Seq<SiteView> {
    sites.map_values(|s: SiteData| s@)
}

impl SiteData {
    /// Builds a record from its five fields.
    pub fn new(
        id: String,
        name: String,
        url: String,
        username: String,
        application_password: String,
    ) -> (r: SiteData)
        ensures
            r@ == (SiteView {
                id: id@,
                name: name@,
                url: url@,
                username: username@,
                application_password: application_password@,
            }),
    {
        SiteData { id, name, url, username, application_password }
    }

    /// A copy of this record with the same field values.
    pub fn duplicate(&self) -> (r: SiteData)
        ensures
            r@ == self@,
    {
        SiteData {
            id: self.id.clone(),
            name: self.name.clone(),
            url: self.url.clone(),
            username: self.username.clone(),
            application_password: self.application_password.clone(),
        }
    }
}

} // verus!
