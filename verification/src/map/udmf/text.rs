//! How the names and lists of an error read, for the messages that are shown to a user.

use vstd::prelude::*;
use vstd::string::StringExecFns;

use crate::map::graph::EntityKind;
use crate::map::udmf::write::{decimal_text, int_text, nat_text, nat_to_text};
use crate::map::udmf::{
    names_view,
    Identifier,
    MissingAssignments,
    ValidIdentifiers,
    ValidValueTypes,
    Value,
    ValueType,
};
use crate::number::Number;
use crate::string8::IntoString8Error;

verus! {

/// The first `n` of `items`, with `, ` between them.
pub open spec fn joined(items: Seq<Seq<char>>, n: nat) -> Seq<char>
    decreases n,
{
    if n == 0 {
        Seq::empty()
    } else if n == 1 {
        items[0]
    } else {
        joined(items, (n - 1) as nat) + seq![',', ' '] + items[n - 1]
    }
}

/// The first `n` of `items`, with `, ` between them.
fn join(items: &Vec<&'static str>, n: usize) -> (r: String)
    requires
        n <= items@.len(),
    ensures
        r@ == joined(names_view(items@), n as nat),
{
    let mut r = String::new();
    let mut i: usize = 0;
    while i < n
        invariant
            i <= n <= items@.len(),
            r@ == joined(names_view(items@), i as nat),
        decreases n - i,
    {
        if i > 0 {
            r.push(',');
            r.push(' ');
        }
        r.append(items[i]);
        assert(r@ =~= joined(names_view(items@), (i + 1) as nat));
        i += 1;
    }
    r
}

impl Identifier {
    /// The name.
    pub fn to_text(&self) -> (r: String)
        ensures
            r@ == self@,
    {
        self.0.clone()
    }
}

impl EntityKind {
    /// The name of the kind in a message.
    pub open spec fn text_spec(self) -> Seq<char> {
        match self {
            EntityKind::Vertex => "vertex"@,
            EntityKind::LineDef => "line_def"@,
            EntityKind::Sector => "sector"@,
            EntityKind::SideDef => "side_def"@,
            EntityKind::Thing => "thing"@,
        }
    }

    /// The name of the kind in a message.
    pub fn to_text(&self) -> (r: String)
        ensures
            r@ == self.text_spec(),
    {
        let s = match self {
            EntityKind::Vertex => "vertex",
            EntityKind::LineDef => "line_def",
            EntityKind::Sector => "sector",
            EntityKind::SideDef => "side_def",
            EntityKind::Thing => "thing",
        };
        s.to_owned()
    }
}

impl ValueType {
    /// The name of the kind of value in a message.
    pub open spec fn text_spec(self) -> Seq<char> {
        match self {
            ValueType::Int => "integer"@,
            ValueType::Float => "float"@,
            ValueType::Str => "string"@,
            ValueType::Bool => "boolean"@,
        }
    }

    /// The name of the kind of value in a message.
    pub fn name(&self) -> (r: &'static str)
        ensures
            r@ == self.text_spec(),
    {
        match self {
            ValueType::Int => "integer",
            ValueType::Float => "float",
            ValueType::Str => "string",
            ValueType::Bool => "boolean",
        }
    }

    /// The name of the kind of value in a message.
    pub fn to_text(&self) -> (r: String)
        ensures
            r@ == self.text_spec(),
    {
        self.name().to_owned()
    }
}

impl ValidIdentifiers {
    /// The names with `, ` between them, or `<none>` where there is none.
    pub open spec fn text_spec(names: Seq<Seq<char>>) -> Seq<char> {
        if names.len() == 0 {
            "<none>"@
        } else {
            joined(names, names.len())
        }
    }

    /// The names with `, ` between them, or `<none>` where there is none.
    pub fn to_text(&self) -> (r: String)
        ensures
            r@ == ValidIdentifiers::text_spec(self@),
    {
        if self.0.len() == 0 {
            "<none>".to_owned()
        } else {
            join(&self.0, self.0.len())
        }
    }
}

impl MissingAssignments {
    /// The names with `, ` between them and ` were not assigned` behind them, or `none???`
    /// where there is none.
    pub open spec fn text_spec(names: Seq<Seq<char>>) -> Seq<char> {
        if names.len() == 0 {
            "none???"@
        } else {
            joined(names, names.len()) + " were not assigned"@
        }
    }

    /// The names with `, ` between them and ` were not assigned` behind them, or `none???`
    /// where there is none.
    pub fn to_text(&self) -> (r: String)
        ensures
            r@ == MissingAssignments::text_spec(self@),
    {
        if self.0.len() == 0 {
            "none???".to_owned()
        } else {
            let mut r = join(&self.0, self.0.len());
            r.append(" were not assigned");
            r
        }
    }
}

/// The names of the kinds of value `types`.
pub open spec fn type_names(types: Seq<ValueType>) -> Seq<Seq<char>> {
    Seq::new(types.len(), |i: int| types[i].text_spec())
}

impl ValidValueTypes {
    /// The kinds of value as a message reads them: the one kind; or `one of`, all kinds
    /// but the last with `, ` between them, ` or ` and the last; or `none???` where there
    /// is none.
    pub open spec fn text_spec(types: Seq<ValueType>) -> Seq<char> {
        if types.len() == 0 {
            "none???"@
        } else if types.len() == 1 {
            types[0].text_spec()
        } else {
            "one of "@ + joined(type_names(types), (types.len() - 1) as nat) + " or "@
                + types.last().text_spec()
        }
    }

    /// The kinds of value as a message reads them.
    pub fn to_text(&self) -> (r: String)
        ensures
            r@ == ValidValueTypes::text_spec(self@),
    {
        let count = self.0.len();
        if count == 0 {
            return "none???".to_owned();
        }
        if count == 1 {
            return self.0[0].to_text();
        }
        let mut names: Vec<&'static str> = Vec::new();
        let mut i: usize = 0;
        while i < count
            invariant
                i <= count,
                count == self.0@.len(),
                names@.len() == i,
                forall|j: int| 0 <= j < i ==> (#[trigger] names@[j])@ == self.0@[j].text_spec(),
            decreases count - i,
        {
            names.push(self.0[i].name());
            i += 1;
        }
        assert(names_view(names@) =~= type_names(self@));
        let mut r = "one of ".to_owned();
        let list = join(&names, count - 1);
        r.append(list.as_str());
        r.append(" or ");
        r.append(names[count - 1]);
        r
    }
}

impl Number {
    /// The number as the text format takes it.
    pub open spec fn text_spec(self) -> Seq<char> {
        match self {
            Number::Int(n) => int_text(n as int),
            Number::Float(d) => decimal_text(d),
        }
    }

    /// The number as the text format takes it.
    pub fn to_text(&self) -> (r: String)
        ensures
            r@ == self.text_spec(),
    {
        Value::from_number(*self).to_text()
    }
}

impl IntoString8Error {
    /// The error as a message.
    pub open spec fn text_spec(self) -> Seq<char> {
        match self {
            IntoString8Error::InteriorNul { position } => "Inner null byte at position "@ + nat_text(
                position as nat,
            ),
            IntoString8Error::TooLong { length } => "Longer than 8 bytes ("@ + nat_text(length as nat)
                + " bytes)"@,
        }
    }

    /// The error as a message.
    pub fn to_text(&self) -> (r: String)
        ensures
            r@ == self.text_spec(),
    {
        match self {
            IntoString8Error::InteriorNul { position } => {
                let mut r = "Inner null byte at position ".to_owned();
                let number = nat_to_text(*position as u64);
                r.append(number.as_str());
                r
            },
            IntoString8Error::TooLong { length } => {
                let mut r = "Longer than 8 bytes (".to_owned();
                let number = nat_to_text(*length as u64);
                r.append(number.as_str());
                r.append(" bytes)");
                r
            },
        }
    }
}

} // verus!
