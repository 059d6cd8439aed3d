//! What the generated views know of the reactive scope they are rendered in:
//! where signals live, which actions exist, and the row that a repeated view shows.
use vstd::prelude::*;
use crate::text::str_eq;

verus! {

/// A name and what it stands for.
pub type Binding = (String, String);

/// The reactive scope of a view, as lookup tables: the state path of each signal
/// name, the id of each action name, the row expression and row path of each
/// binding that reads a repeated row, the state path of each text binding, and the
/// row that actions of a repeated view receive.
#[derive(Debug, Clone)]
pub struct ComposeReactiveContext {
    pub signal_paths: Vec<Binding>,
    pub action_ids: Vec<Binding>,
    pub item_values: Vec<Binding>,
    pub item_paths: Vec<Binding>,
    pub dynamic_paths: Vec<Binding>,
    pub active_item: Option<String>,
}

/// What the first entry named `key` stands for, if any entry has that name.
pub open spec fn lookup(table: Seq<Binding>, key: Seq<char>) -> Option<Seq<char>>
    decreases table.len(),
{
    if table.len() == 0 {
        None
    } else if table[0].0@ == key {
        Some(table[0].1@)
    } else {
        lookup(table.skip(1), key)
    }
}

/// What the first entry named `key` stands for.
pub fn lookup_binding<'a>(table: &'a Vec<Binding>, key: &str) -> (res: Option<&'a String>)
    ensures
        match res {
            Some(v) => lookup(table@, key@) == Some(v@),
            None => lookup(table@, key@) is None,
        },
{
    let mut i: usize = 0;
    assert(table@.skip(0) =~= table@);
    while i < table.len()
        invariant
            i <= table@.len(),
            lookup(table@, key@) == lookup(table@.skip(i as int), key@),
        decreases table@.len() - i,
    {
        assert(table@.skip(i as int)[0] == table@[i as int]);
        if str_eq(table[i].0.as_str(), key) {
            return Some(&table[i].1);
        }
        assert(table@.skip(i as int).skip(1) =~= table@.skip(i + 1));
        i = i + 1;
    }
    None
}

/// The state path of a signal: the path it is bound to in the scope, else its own name.
pub open spec fn signal_path_text(ctx: ComposeReactiveContext, path: Seq<char>) -> Seq<char> {
    match lookup(ctx.signal_paths@, path) {
        Some(p) => p,
        None => path,
    }
}

impl ComposeReactiveContext {
    /// The state path of a signal.
    pub fn signal_path(&self, path: &str) -> (res: String)
        ensures
            res@ == signal_path_text(*self, path@),
    {
        match lookup_binding(&self.signal_paths, path) {
            Some(p) => p.clone(),
            None => String::from_str(path),
        }
    }

    /// The id of an action of the scope.
    pub fn action_id(&self, name: &str) -> (res: Option<&String>)
        ensures
            match res {
                Some(v) => lookup(self.action_ids@, name@) == Some(v@),
                None => lookup(self.action_ids@, name@) is None,
            },
    {
        lookup_binding(&self.action_ids, name)
    }

    /// The row expression a binding reads, inside a repeated view.
    pub fn item_value(&self, path: &str) -> (res: Option<&String>)
        ensures
            match res {
                Some(v) => lookup(self.item_values@, path@) == Some(v@),
                None => lookup(self.item_values@, path@) is None,
            },
    {
        lookup_binding(&self.item_values, path)
    }

    /// The path inside the row that a binding reads, inside a repeated view.
    pub fn item_path(&self, path: &str) -> (res: Option<&String>)
        ensures
            match res {
                Some(v) => lookup(self.item_paths@, path@) == Some(v@),
                None => lookup(self.item_paths@, path@) is None,
            },
    {
        lookup_binding(&self.item_paths, path)
    }

    /// The state path a text binding reads, where it reads one.
    pub fn dynamic_path(&self, binding: &str) -> (res: Option<&String>)
        ensures
            match res {
                Some(v) => lookup(self.dynamic_paths@, binding@) == Some(v@),
                None => lookup(self.dynamic_paths@, binding@) is None,
            },
    {
        lookup_binding(&self.dynamic_paths, binding)
    }
}

} // verus!
