//! Records of the link store.
use vstd::prelude::*;

verus! {

/// A stored short link: its key, where it leads, and a hit counter that is
/// carried along unchanged.
#[derive(Debug)]
pub struct Link {
    pub id: String,
    pub dest_url: String,
    pub count: i32,
}

impl Link {
    /// The entry that fills an unused cache slot: empty key and destination.
    pub open spec fn is_empty_entry(&self) -> bool {
        &&& self.id@ == Seq::<char>::empty()
        &&& self.dest_url@ == Seq::<char>::empty()
        &&& self.count == 0
    }
}

impl Default for Link {
    fn default() -> (r: Link)
        ensures
            r.is_empty_entry(),
    {
        Link { id: String::new(), dest_url: String::new(), count: 0 }
    }
}

impl Clone for Link {
    fn clone(&self) -> (r: Link)
        ensures
            r == *self,
    {
        Link { id: self.id.clone(), dest_url: self.dest_url.clone(), count: self.count }
    }
}

/// The externally visible short URL of a stored link: the service's base
/// URL followed by the link's key.
pub fn shortened_url(base: &str, link: &Link) -> (r: String)
    ensures
        r@ == base@ + link.id@,
{
    let url = base.to_owned();
    url.concat(link.id.as_str())
}

/// What a client hands in to create a link: the destination only; the store
/// assigns the key.
#[derive(Debug)]
pub struct LinkCreate {
    pub dest_url: String,
}

impl Clone for LinkCreate {
    fn clone(&self) -> (r: LinkCreate)
        ensures
            r == *self,
    {
        LinkCreate { dest_url: self.dest_url.clone() }
    }
}

} // verus!
