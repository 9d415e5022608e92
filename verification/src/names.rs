//! The names of the generated operations.

use crate::directive::EXTEND;
use crate::directive::GETTER_PREFIX_DEFAULT;
use crate::directive::INTO_PREFIX_DEFAULT;
use crate::directive::TAKE;
use crate::field::Field;
use crate::rules::Rules;
use crate::rules::RulesView;
use crate::text::decimal;
use crate::text::decimal_text;
use crate::text::join;
use crate::text::joined;
use vstd::prelude::*;

verus! {

/// What a field is called in the names of its setters and getter: the alias
/// where there is one, else the field's name, else its index in base ten.
pub open spec fn name_target(r: RulesView, ident: Option<Seq<char>>, idx: nat) -> Seq<char> {
    match r.alias {
        Some(alias) => alias,
        None => match ident {
            Some(name) => name,
            None => decimal(idx),
        },
    }
}

/// The setter's name: the setter prefix, an underscore, and the target.
pub open spec fn setter_name(r: RulesView, ident: Option<Seq<char>>, idx: nat) -> Seq<char> {
    joined(r.prefix_setter, name_target(r, ident, idx))
}

/// The getter prefix in force: `nth` for a positional field that has neither
/// a getter prefix nor an alias, else the getter prefix of the rule record.
pub open spec fn getter_prefix_used(r: RulesView, ident: Option<Seq<char>>) -> Seq<char> {
    if ident is None && r.prefix_getter.len() == 0 && r.alias is None {
        GETTER_PREFIX_DEFAULT@
    } else {
        r.prefix_getter
    }
}

/// The getter's name: the bare target where no getter prefix is in force,
/// else the prefix, an underscore, and the target.
pub open spec fn getter_name(r: RulesView, ident: Option<Seq<char>>, idx: nat) -> Seq<char> {
    let prefix = getter_prefix_used(r, ident);
    if prefix.len() == 0 {
        name_target(r, ident, idx)
    } else {
        joined(prefix, name_target(r, ident, idx))
    }
}

/// A name with a word added behind an underscore.
pub open spec fn suffixed(name: Seq<char>, word: Seq<char>) -> Seq<char> {
    joined(name, word)
}

/// What a field is called in the names of the operations that move it out:
/// the alias where there is one, else the field's name, else `nth`, an
/// underscore and the index.
pub open spec fn move_target(r: RulesView, ident: Option<Seq<char>>, idx: nat) -> Seq<char> {
    match r.alias {
        Some(alias) => alias,
        None => match ident {
            Some(name) => name,
            None => joined(GETTER_PREFIX_DEFAULT@, decimal(idx)),
        },
    }
}

/// The prefix of the consuming move-out operation: `into` unless the rule
/// record gives another.
pub open spec fn into_prefix_used(r: RulesView) -> Seq<char> {
    match r.into_prefix {
        Some(prefix) => prefix,
        None => INTO_PREFIX_DEFAULT@,
    }
}

/// The name of the consuming move-out operation: the bare target where the
/// prefix is empty, else the prefix, an underscore, and the target.
pub open spec fn into_name(r: RulesView, ident: Option<Seq<char>>, idx: nat) -> Seq<char> {
    let prefix = into_prefix_used(r);
    if prefix.len() == 0 {
        move_target(r, ident, idx)
    } else {
        joined(prefix, move_target(r, ident, idx))
    }
}

/// The name of the move-out operation that leaves the field reset: `take`,
/// an underscore, and the target, whatever the rule record's prefixes.
pub open spec fn take_name(r: RulesView, ident: Option<Seq<char>>, idx: nat) -> Seq<char> {
    joined(TAKE@, move_target(r, ident, idx))
}

impl Rules {
    fn target(&self, field: &Field, idx: usize) -> (name: String)
        ensures
            name@ == name_target(self@, field@.ident, idx as nat),
    {
        match &self.alias {
            Some(alias) => alias.clone(),
            None => match &field.ident {
                Some(name) => name.clone(),
                None => decimal_text(idx),
            },
        }
    }

    fn moved(&self, field: &Field, idx: usize) -> (name: String)
        ensures
            name@ == move_target(self@, field@.ident, idx as nat),
    {
        match &self.alias {
            Some(alias) => alias.clone(),
            None => match &field.ident {
                Some(name) => name.clone(),
                None => {
                    let index = decimal_text(idx);
                    join(GETTER_PREFIX_DEFAULT, index.as_str())
                },
            },
        }
    }

    /// The names of a field's setter and getter, in this order.
    pub fn generate_setter_getter_names(&self, field: &Field, idx: usize) -> (names: (
        String,
        String,
    ))
        ensures
            names.0@ == setter_name(self@, field@.ident, idx as nat),
            names.1@ == getter_name(self@, field@.ident, idx as nat),
    {
        let target = self.target(field, idx);
        let setter = join(self.prefix_setter.as_str(), target.as_str());
        let bare = self.prefix_getter.as_str().is_empty();
        let getter = if field.ident.is_none() && bare && self.alias.is_none() {
            join(GETTER_PREFIX_DEFAULT, target.as_str())
        } else if bare {
            target
        } else {
            join(self.prefix_getter.as_str(), target.as_str())
        };
        proof {
            reveal_strlit("nth");
        }
        (setter, getter)
    }

    /// The names of the two operations that move a field out: the consuming
    /// one first, then the one that leaves the field reset.
    pub fn generate_into_take_names(&self, field: &Field, idx: usize) -> (names: (String, String))
        ensures
            names.0@ == into_name(self@, field@.ident, idx as nat),
            names.1@ == take_name(self@, field@.ident, idx as nat),
    {
        let target = self.moved(field, idx);
        let take = join(TAKE, target.as_str());
        let into = match &self.into_prefix {
            Some(prefix) => {
                if prefix.as_str().is_empty() {
                    target
                } else {
                    join(prefix.as_str(), target.as_str())
                }
            },
            None => {
                proof {
                    reveal_strlit("into");
                }
                join(INTO_PREFIX_DEFAULT, target.as_str())
            },
        };
        (into, take)
    }

    /// The name of the setter that appends: the setter's name, an
    /// underscore, and `extend`.
    pub fn extend_name(setter: &str) -> (name: String)
        ensures
            name@ == suffixed(setter@, EXTEND@),
    {
        join(setter, EXTEND)
    }
}

} // verus!
