use vstd::prelude::*;
use vstd::string::*;
use vstd::hash_map::StringHashMap;
use crate::text::escape_after;

verus! {

/// What can go wrong while expanding.
#[derive(Clone, Copy, Debug, PartialEq, Eq, Structural)]
pub enum MacroError {
    /// A scalar that cannot be part of a name follows a backslash and a name.
    BadCallName,
    /// The name given to `\def` is empty or holds a scalar that no name can hold.
    BadDefName,
    /// The name given to `\undef` holds a scalar that no name can hold.
    BadUndefName,
    /// `\def` of a name that is bound.
    AlreadyDefined,
    /// A call or an `\undef` of a name that is not bound.
    NotDefined,
    /// A group that is not opened, not closed or not balanced.
    Incomplete,
    /// The file named by `\include` could not be read.
    IncludeFailed,
}

impl MacroError {
    /// The wording of the diagnostic.
    pub open spec fn text(self) -> Seq<char> {
        match self {
            MacroError::BadCallName => "Non-alphanumeric in macro name"@,
            MacroError::BadDefName => "Non-alphanumeric while defining macro name."@,
            MacroError::BadUndefName => "Non-alphanumeric in un-define."@,
            MacroError::AlreadyDefined => "Macro already defined."@,
            MacroError::NotDefined => "Macro not defined."@,
            MacroError::Incomplete => "Incomplete macro."@,
            MacroError::IncludeFailed => "Include error."@,
        }
    }

    /// The diagnostic for this error.
    pub fn message(&self) -> (msg: String)
        ensures
            msg@ == self.text(),
    {
        match self {
            MacroError::BadCallName => "Non-alphanumeric in macro name".to_owned(),
            MacroError::BadDefName => "Non-alphanumeric while defining macro name.".to_owned(),
            MacroError::BadUndefName => "Non-alphanumeric in un-define.".to_owned(),
            MacroError::AlreadyDefined => "Macro already defined.".to_owned(),
            MacroError::NotDefined => "Macro not defined.".to_owned(),
            MacroError::Incomplete => "Incomplete macro.".to_owned(),
            MacroError::IncludeFailed => "Include error.".to_owned(),
        }
    }
}

/// The bindings of macro names to bodies. A name has at most one body.
pub struct MacroTable {
    map: StringHashMap<String>,
}

impl View for MacroTable {
    type V = Map<Seq<char>, Seq<char>>;

    closed spec fn view(&self) -> Map<Seq<char>, Seq<char>> {
        self.map@.map_values(|body: String| body@)
    }
}

impl MacroTable {
    /// A table without bindings.
    pub fn new() -> (table: MacroTable)
        ensures
            table@ == Map::<Seq<char>, Seq<char>>::empty(),
    {
        let table = MacroTable { map: StringHashMap::new() };
        proof {
            assert(table@ =~= Map::<Seq<char>, Seq<char>>::empty());
        }
        table
    }

    /// Whether `name` is bound.
    pub fn contains(&self, name: &str) -> (bound: bool)
        ensures
            bound == self@.contains_key(name@),
    {
        self.map.contains_key(name)
    }

    /// The body bound to `name`, if any.
    pub fn body(&self, name: &str) -> (found: Option<&String>)
        ensures
            match found {
                Some(body) => self@.contains_key(name@) && body@ == self@[name@],
                None => !self@.contains_key(name@),
            },
    {
        self.map.get(name)
    }

    /// Binds `name` to `body`, in place of any body it had.
    pub fn insert(&mut self, name: String, body: String)
        ensures
            final(self)@ == old(self)@.insert(name@, body@),
    {
        self.map.insert(name, body);
        proof {
            assert(self@ =~= old(self)@.insert(name@, body@));
        }
    }

    /// Drops the binding of `name`, if there is one.
    pub fn remove(&mut self, name: &str)
        ensures
            final(self)@ == old(self)@.remove(name@),
    {
        self.map.remove(name);
        proof {
            assert(self@ =~= old(self)@.remove(name@));
        }
    }
}

/// The body of a macro with the argument put in place of every `#` that no
/// backslash escapes. Backslashes stay where they are.
pub open spec fn substitute(body: Seq<char>, arg: Seq<char>) -> Seq<char>
    decreases body.len(),
{
    if body.len() == 0 {
        Seq::empty()
    } else if body.last() == '#' && !escape_after(false, body.drop_last()) {
        substitute(body.drop_last(), arg) + arg
    } else {
        substitute(body.drop_last(), arg).push(body.last())
    }
}

/// The text that a call of `macro_name` with `arg` stands for, or the
/// diagnostic for an unbound name.
pub fn expand_macro(map: &MacroTable, macro_name: &String, arg: &String) -> (expansion: Result<
    String,
    String,
>)
    ensures
        match expansion {
            Ok(expanded) => map@.contains_key(macro_name@) && expanded@ == substitute(
                map@[macro_name@],
                arg@,
            ),
            Err(msg) => !map@.contains_key(macro_name@) && msg@ == MacroError::NotDefined.text(),
        },
{
    match map.body(macro_name.as_str()) {
        None => Err(MacroError::NotDefined.message()),
        Some(body) => {
            let mut expanded = String::new();
            let mut escaping = false;
            for c in it: body.as_str().chars()
                invariant
                    it.seq() == body@,
                    escaping == escape_after(false, body@.take(it.index() as int)),
                    expanded@ == substitute(body@.take(it.index() as int), arg@),
            {
                proof {
                    let k = it.index() as int;
                    assert(body@.take(k + 1).drop_last() == body@.take(k));
                }
                if c == '#' && !escaping {
                    expanded.append(arg.as_str());
                } else {
                    expanded.push(c);
                }
                escaping = c == '\\' && !escaping;
            }
            proof {
                assert(body@.take(body@.len() as int) == body@);
            }
            Ok(expanded)
        },
    }
}

} // verus!
