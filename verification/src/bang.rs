use vstd::prelude::*;

verus! {

/// One record of the catalog: a trigger, the URL template it stands for, and
/// display metadata that resolution never reads.
#[derive(Debug)]
pub struct Bang {
    pub category: Option<String>,
    pub domain: Option<String>,
    pub relevance: Option<u64>,
    pub short_name: Option<String>,
    pub subcategory: Option<String>,
    pub trigger: String,
    pub url_template: String,
}

/// A copy of an optional text.
pub fn copy_text(t: &Option<String>) -> (r: Option<String>)
    ensures
        r == *t,
{
    match t {
        Some(s) => Some(s.clone()),
        None => None,
    }
}

impl Clone for Bang {
    fn clone(&self) -> (r: Self)
        ensures
            r == *self,
    {
        Bang {
            category: copy_text(&self.category),
            domain: copy_text(&self.domain),
            relevance: self.relevance,
            short_name: copy_text(&self.short_name),
            subcategory: copy_text(&self.subcategory),
            trigger: self.trigger.clone(),
            url_template: self.url_template.clone(),
        }
    }
}

impl Bang {
    /// A record with a trigger and a template and no metadata.
    pub fn new(trigger: String, url_template: String) -> (r: Self)
        ensures
            r.trigger == trigger,
            r.url_template == url_template,
            r.category is None,
            r.domain is None,
            r.relevance is None,
            r.short_name is None,
            r.subcategory is None,
    {
        Bang {
            category: None,
            domain: None,
            relevance: None,
            short_name: None,
            subcategory: None,
            trigger,
            url_template,
        }
    }
}

/// A copy of a list of records.
pub fn copy_bangs(list: &Vec<Bang>) -> (r: Vec<Bang>)
    ensures
        r@ == list@,
{
    let mut r: Vec<Bang> = Vec::new();
    let mut i: usize = 0;
    while i < list.len()
        invariant
            i <= list.len(),
            r@ == list@.subrange(0, i as int),
        decreases list.len() - i,
    {
        r.push(list[i].clone());
        proof {
            assert(r@ =~= list@.subrange(0, i + 1));
        }
        i += 1;
    }
    proof {
        assert(list@.subrange(0, list.len() as int) =~= list@);
    }
    r
}

} // verus!
