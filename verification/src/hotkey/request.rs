//! What a caller asks of the portal, and what the portal answers.

use vstd::prelude::*;
use vstd::string::*;

use crate::text::{copy_text, text_model};

verus! {

/// One registration, as the caller words it.
#[derive(Debug, PartialEq, Eq)]
pub struct RegistrationRequest {
    /// Identifier under which activations are reported.
    pub shortcut_id: String,
    /// Text the portal shows to the user.
    pub description: String,
    /// The key combination the caller would like.
    pub preferred_trigger: String,
}

/// Model of a [`RegistrationRequest`].
pub struct RequestModel {
    pub shortcut_id: Seq<char>,
    pub description: Seq<char>,
    pub preferred_trigger: Seq<char>,
}

impl View for RegistrationRequest {
    type V = RequestModel;

    open spec fn view(&self) -> RequestModel {
        RequestModel {
            shortcut_id: self.shortcut_id@,
            description: self.description@,
            preferred_trigger: self.preferred_trigger@,
        }
    }
}

/// The request with three empty texts, held while no registration runs.
pub open spec fn blank_request() -> RequestModel {
    RequestModel {
        shortcut_id: Seq::empty(),
        description: Seq::empty(),
        preferred_trigger: Seq::empty(),
    }
}

impl RegistrationRequest {
    pub fn new(shortcut_id: &str, description: &str, preferred_trigger: &str) -> (request: Self)
        ensures
            request@ == (RequestModel {
                shortcut_id: shortcut_id@,
                description: description@,
                preferred_trigger: preferred_trigger@,
            }),
    {
        RegistrationRequest {
            shortcut_id: String::from_str(shortcut_id),
            description: String::from_str(description),
            preferred_trigger: String::from_str(preferred_trigger),
        }
    }

    pub fn blank() -> (request: Self)
        ensures
            request@ == blank_request(),
    {
        RegistrationRequest {
            shortcut_id: String::new(),
            description: String::new(),
            preferred_trigger: String::new(),
        }
    }
}

impl Clone for RegistrationRequest {
    fn clone(&self) -> (copy: Self)
        ensures
            copy@ == self@,
    {
        RegistrationRequest {
            shortcut_id: self.shortcut_id.clone(),
            description: self.description.clone(),
            preferred_trigger: self.preferred_trigger.clone(),
        }
    }
}

/// One entry of the portal's bind response. The trigger may differ from the
/// preferred one: the user can change it in the portal's dialog.
#[derive(Debug, PartialEq, Eq)]
pub struct BoundShortcut {
    pub id: String,
    pub actual_trigger: Option<String>,
}

/// Model of a [`BoundShortcut`].
pub struct BoundModel {
    pub id: Seq<char>,
    pub actual_trigger: Option<Seq<char>>,
}

impl View for BoundShortcut {
    type V = BoundModel;

    open spec fn view(&self) -> BoundModel {
        BoundModel { id: self.id@, actual_trigger: text_model(self.actual_trigger) }
    }
}

/// Models of the entries of a bind response, in order.
pub open spec fn bound_models(shortcuts: Seq<BoundShortcut>) -> Seq<BoundModel> {
    shortcuts.map_values(|b: BoundShortcut| b@)
}

/// The trigger that a bind response reports for `id`: that of the first entry
/// with this id, and nothing where no entry has it.
pub open spec fn trigger_for(shortcuts: Seq<BoundModel>, id: Seq<char>) -> Option<Seq<char>>
    decreases shortcuts.len(),
{
    if shortcuts.len() == 0 {
        None
    } else if shortcuts[0].id == id {
        shortcuts[0].actual_trigger
    } else {
        trigger_for(shortcuts.drop_first(), id)
    }
}

impl BoundShortcut {
    pub fn new(id: &str, actual_trigger: Option<&str>) -> (bound: Self)
        ensures
            bound@.id == id@,
            match actual_trigger {
                Some(t) => bound@.actual_trigger == Some(t@),
                None => bound@.actual_trigger is None,
            },
    {
        let trigger = match actual_trigger {
            Some(t) => Some(String::from_str(t)),
            None => None,
        };
        BoundShortcut { id: String::from_str(id), actual_trigger: trigger }
    }
}

/// Reads from a bind response the trigger bound to `shortcut_id`.
pub fn extract_trigger(shortcuts: &Vec<BoundShortcut>, shortcut_id: &String) -> (trigger: Option<String>)
    ensures
        text_model(trigger) == trigger_for(bound_models(shortcuts@), shortcut_id@),
{
    let ghost all = bound_models(shortcuts@);
    let mut i: usize = 0;
    proof {
        assert(all.subrange(0, all.len() as int) =~= all);
    }
    while i < shortcuts.len()
        invariant
            i <= shortcuts.len(),
            all == bound_models(shortcuts@),
            trigger_for(all, shortcut_id@) == trigger_for(all.subrange(i as int, all.len() as int), shortcut_id@),
        decreases shortcuts.len() - i,
    {
        let ghost rest = all.subrange(i as int, all.len() as int);
        proof {
            assert(rest[0] == shortcuts@[i as int]@);
            assert(rest.drop_first() =~= all.subrange(i + 1, all.len() as int));
        }
        if shortcuts[i].id == *shortcut_id {
            return copy_text(&shortcuts[i].actual_trigger);
        }
        i += 1;
    }
    proof {
        assert(all.subrange(i as int, all.len() as int).len() == 0);
    }
    None
}

} // verus!
