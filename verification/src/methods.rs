//! The table of methods: which function of the interpreter answers a generic
//! question about the values of a class.

use crate::text::{find_char, first_index_of, same_text, starts_with};
use vstd::prelude::*;
use vstd::string::{StrSliceExecFns, StringExecFns};

verus! {

/// The questions that can be asked of a value.
#[derive(Clone, Copy, Debug, PartialEq, Eq, Hash, Structural)]
pub enum ArkGenerics {
    /// How is the value shown?
    VariableDisplayValue,
    /// How is the type of the value shown?
    VariableDisplayType,
    /// Does the value hold other values?
    VariableHasChildren,
    /// What kind of value is it?
    VariableKind,
}

/// Every generic, in the order of their declaration.
pub open spec fn all_generics() -> Seq<ArkGenerics> {
    seq![
        ArkGenerics::VariableDisplayValue,
        ArkGenerics::VariableDisplayType,
        ArkGenerics::VariableHasChildren,
        ArkGenerics::VariableKind,
    ]
}

/// The first generic whose name `name` begins with.
pub open spec fn generic_of(name: Seq<char>) -> Option<ArkGenerics> {
    if ArkGenerics::VariableDisplayValue.name().is_prefix_of(name) {
        Some(ArkGenerics::VariableDisplayValue)
    } else if ArkGenerics::VariableDisplayType.name().is_prefix_of(name) {
        Some(ArkGenerics::VariableDisplayType)
    } else if ArkGenerics::VariableHasChildren.name().is_prefix_of(name) {
        Some(ArkGenerics::VariableHasChildren)
    } else if ArkGenerics::VariableKind.name().is_prefix_of(name) {
        Some(ArkGenerics::VariableKind)
    } else {
        None
    }
}

/// What the name of a symbol says, where it names a method: the generic
/// whose name it begins with, and the class, which is all that follows its
/// first dot.
pub open spec fn parsed_method(name: Seq<char>) -> Option<(ArkGenerics, Seq<char>)> {
    match (generic_of(name), first_index_of(name, '.')) {
        (Some(generic), Some(dot)) => Some((generic, name.skip(dot + 1))),
        _ => None,
    }
}

/// The name of the symbol that holds the method of `generic` for `class`.
pub open spec fn method_symbol(generic: ArkGenerics, class: Seq<char>) -> Seq<char> {
    generic.name() + seq!['.'] + class
}

impl ArkGenerics {
    /// The name of the generic in the interpreter.
    pub open spec fn name(self) -> Seq<char> {
        match self {
            ArkGenerics::VariableDisplayValue => "ark_variable_display_value"@,
            ArkGenerics::VariableDisplayType => "ark_variable_display_type"@,
            ArkGenerics::VariableHasChildren => "ark_variable_has_children"@,
            ArkGenerics::VariableKind => "ark_variable_kind"@,
        }
    }

    /// The name of the generic in the interpreter.
    pub fn as_str(&self) -> (name: &'static str)
        ensures
            name@ == self.name(),
    {
        match self {
            ArkGenerics::VariableDisplayValue => "ark_variable_display_value",
            ArkGenerics::VariableDisplayType => "ark_variable_display_type",
            ArkGenerics::VariableHasChildren => "ark_variable_has_children",
            ArkGenerics::VariableKind => "ark_variable_kind",
        }
    }

    /// The generic of the given name.
    pub fn from_name(name: &str) -> (generic: Option<Self>)
        ensures
            match generic {
                Some(found) => found.name() == name@,
                None => forall|other: ArkGenerics| other.name() != name@,
            },
    {
        let generics = ArkGenerics::all();
        let mut i: usize = 0;
        while i < generics.len()
            invariant
                i <= generics.len(),
                generics@ == all_generics(),
                forall|j: int| 0 <= j < i ==> generics@[j].name() != name@,
            decreases generics.len() - i,
        {
            if same_text(generics[i].as_str(), name) {
                return Some(generics[i]);
            }
            i = i + 1;
        }
        assert forall|other: ArkGenerics| other.name() != name@ by {
            assert(other == generics@[0] || other == generics@[1] || other == generics@[2] || other
                == generics@[3]);
        }
        None
    }

    /// Every generic, in the order of their declaration.
    pub fn all() -> (generics: Vec<ArkGenerics>)
        ensures
            generics@ == all_generics(),
    {
        vec![
            ArkGenerics::VariableDisplayValue,
            ArkGenerics::VariableDisplayType,
            ArkGenerics::VariableHasChildren,
            ArkGenerics::VariableKind,
        ]
    }

    /// Checks whether the name of a symbol is that of a method, and returns
    /// the generic and the class that it names.
    pub fn parse_method(name: &String) -> (parsed: Option<(Self, String)>)
        ensures
            match parsed {
                Some((generic, class)) => parsed_method(name@) == Some((generic, class@)),
                None => parsed_method(name@) is None,
            },
    {
        let generics = ArkGenerics::all();
        let mut i: usize = 0;
        while i < generics.len()
            invariant
                i <= generics.len(),
                generics@ == all_generics(),
                forall|j: int| 0 <= j < i ==> !generics@[j].name().is_prefix_of(name@),
            decreases generics.len() - i,
        {
            let generic = generics[i];
            if starts_with(name.as_str(), generic.as_str()) {
                assert(generic_of(name@) == Some(generic));
                return match find_char(name.as_str(), '.') {
                    Some(dot) => {
                        let end = name.as_str().unicode_len();
                        let class = name.as_str().substring_char(dot + 1, end).to_owned();
                        assert(name@.subrange(dot + 1, end as int) == name@.skip(dot + 1));
                        Some((generic, class))
                    },
                    None => None,
                };
            }
            i = i + 1;
        }
        assert(generic_of(name@) is None);
        None
    }
}

/// A method: what the interpreter calls to answer a generic for a class.
/// `V` is the type of the interpreter's values.
#[derive(Debug, PartialEq)]
pub enum Method<V> {
    /// A value of the interpreter that can be called.
    Object(V),
    /// The function bound to `symbol` in the namespace of `package`, looked up
    /// when it is called.
    Qualified { package: String, symbol: String },
}

/// A `Method` as plain values.
pub enum MethodView<V> {
    Object(V),
    Qualified { package: Seq<char>, symbol: Seq<char> },
}

impl<V> View for Method<V> {
    type V = MethodView<V>;

    open spec fn view(&self) -> MethodView<V> {
        match *self {
            Method::Object(object) => MethodView::Object(object),
            Method::Qualified { package, symbol } => MethodView::Qualified {
                package: package@,
                symbol: symbol@,
            },
        }
    }
}

/// One entry of the table: the method of `generic` for `class`.
#[derive(Debug, PartialEq)]
pub struct Registration<V> {
    pub generic: ArkGenerics,
    pub class: String,
    pub method: Method<V>,
}

impl<V> Registration<V> {
    /// What the entry is found by.
    pub open spec fn key(self) -> (ArkGenerics, Seq<char>) {
        (self.generic, self.class@)
    }
}

/// The table that `entries` stand for: each entry is registered in turn, a
/// later one replacing an earlier one for the same generic and class.
pub open spec fn table_of<V>(entries: Seq<Registration<V>>) -> Map<
    (ArkGenerics, Seq<char>),
    MethodView<V>,
>
    decreases entries.len(),
{
    if entries.len() == 0 {
        Map::empty()
    } else {
        table_of(entries.drop_last()).insert(entries.last().key(), entries.last().method@)
    }
}

/// An entry after which none has the same key is what the table holds for
/// that key.
proof fn lemma_table_holds_last<V>(entries: Seq<Registration<V>>, i: int)
    requires
        0 <= i < entries.len(),
        forall|j: int| i < j < entries.len() ==> entries[j].key() != entries[i].key(),
    ensures
        table_of(entries).contains_key(entries[i].key()),
        table_of(entries)[entries[i].key()] == entries[i].method@,
    decreases entries.len(),
{
    if i < entries.len() - 1 {
        lemma_table_holds_last(entries.drop_last(), i);
    }
}

/// The table holds nothing for a key that no entry has.
proof fn lemma_table_lacks<V>(entries: Seq<Registration<V>>, key: (ArkGenerics, Seq<char>))
    requires
        forall|j: int| 0 <= j < entries.len() ==> entries[j].key() != key,
    ensures
        !table_of(entries).contains_key(key),
    decreases entries.len(),
{
    if entries.len() > 0 {
        lemma_table_lacks(entries.drop_last(), key);
    }
}

/// To replace the last entry of a key is to register the new entry.
proof fn lemma_table_replace<V>(entries: Seq<Registration<V>>, i: int, entry: Registration<V>)
    requires
        0 <= i < entries.len(),
        entries[i].key() == entry.key(),
        forall|j: int| i < j < entries.len() ==> entries[j].key() != entry.key(),
    ensures
        table_of(entries.update(i, entry)) == table_of(entries).insert(entry.key(), entry.method@),
    decreases entries.len(),
{
    let replaced = entries.update(i, entry);
    if i < entries.len() - 1 {
        lemma_table_replace(entries.drop_last(), i, entry);
        assert(replaced.drop_last() =~= entries.drop_last().update(i, entry));
        assert(replaced.last() == entries.last());
        assert(table_of(replaced) =~= table_of(entries).insert(entry.key(), entry.method@));
    } else {
        assert(replaced.drop_last() =~= entries.drop_last());
        assert(table_of(replaced) =~= table_of(entries).insert(entry.key(), entry.method@));
    }
}

/// The methods that are registered: at most one for a generic and a class.
#[derive(Debug)]
pub struct MethodsTable<V> {
    entries: Vec<Registration<V>>,
}

impl<V> View for MethodsTable<V> {
    type V = Map<(ArkGenerics, Seq<char>), MethodView<V>>;

    closed spec fn view(&self) -> Map<(ArkGenerics, Seq<char>), MethodView<V>> {
        table_of(self.entries@)
    }
}

impl<V> MethodsTable<V> {
    /// A table without methods.
    pub fn new() -> (table: Self)
        ensures
            table@ == Map::<(ArkGenerics, Seq<char>), MethodView<V>>::empty(),
    {
        MethodsTable { entries: Vec::new() }
    }

    /// Where the entry of `generic` and `class` stands, if there is one.
    fn position(&self, generic: ArkGenerics, class: &str) -> (at: Option<usize>)
        ensures
            match at {
                Some(i) => {
                    &&& i < self.entries@.len()
                    &&& self.entries@[i as int].key() == (generic, class@)
                    &&& forall|j: int|
                        i < j < self.entries@.len() ==> self.entries@[j].key() != (generic, class@)
                },
                None => forall|j: int|
                    0 <= j < self.entries@.len() ==> self.entries@[j].key() != (generic, class@),
            },
    {
        let mut i: usize = self.entries.len();
        while i > 0
            invariant
                i <= self.entries@.len(),
                forall|j: int|
                    i <= j < self.entries@.len() ==> self.entries@[j].key() != (generic, class@),
            decreases i,
        {
            i = i - 1;
            let entry = &self.entries[i];
            if entry.generic == generic && same_text(entry.class.as_str(), class) {
                return Some(i);
            }
        }
        None
    }

    /// The method registered for `generic` and `class`, if there is one.
    pub fn get(&self, generic: ArkGenerics, class: &str) -> (method: Option<&Method<V>>)
        ensures
            match method {
                Some(found) => self@.contains_key((generic, class@)) && self@[(generic, class@)]
                    == found@,
                None => !self@.contains_key((generic, class@)),
            },
    {
        match self.position(generic, class) {
            Some(i) => {
                proof {
                    lemma_table_holds_last(self.entries@, i as int);
                }
                Some(&self.entries[i].method)
            },
            None => {
                proof {
                    lemma_table_lacks(self.entries@, (generic, class@));
                }
                None
            },
        }
    }

    /// Registers `method` for `generic` and `class`, in place of any method
    /// registered for them before.
    pub fn insert(&mut self, generic: ArkGenerics, class: &str, method: Method<V>)
        ensures
            final(self)@ == old(self)@.insert((generic, class@), method@),
    {
        let entry = Registration { generic, class: class.to_owned(), method };
        match self.position(generic, class) {
            Some(i) => {
                proof {
                    lemma_table_replace(self.entries@, i as int, entry);
                }
                self.entries.set(i, entry);
            },
            None => {
                self.entries.push(entry);
                assert(self.entries@.drop_last() =~= old(self).entries@);
            },
        }
    }
}

/// What dispatch knows of the value that a generic is asked of.
#[derive(Debug, PartialEq)]
pub struct Target {
    /// Whether the value is an object, that is, whether it carries a class
    /// of its own. Only objects have methods.
    pub is_object: bool,
    /// The classes of the value, the most specific first.
    pub classes: Vec<String>,
}

/// The classes as plain values.
pub open spec fn class_names(classes: Seq<String>) -> Seq<Seq<char>> {
    classes.map_values(|class: String| class@)
}

/// The method of `generic` for a value of the given classes: that of the
/// first class that has one.
pub open spec fn method_for<V>(
    table: Map<(ArkGenerics, Seq<char>), MethodView<V>>,
    generic: ArkGenerics,
    classes: Seq<Seq<char>>,
) -> Option<MethodView<V>>
    decreases classes.len(),
{
    if classes.len() == 0 {
        None
    } else if table.contains_key((generic, classes[0])) {
        Some(table[(generic, classes[0])])
    } else {
        method_for(table, generic, classes.drop_first())
    }
}

/// The method that answers `generic` for `target`. A value that is no object
/// has none, whatever is registered.
pub open spec fn dispatched<V>(
    table: Map<(ArkGenerics, Seq<char>), MethodView<V>>,
    generic: ArkGenerics,
    target: Target,
) -> Option<MethodView<V>> {
    if target.is_object {
        method_for(table, generic, class_names(target.classes@))
    } else {
        None
    }
}

/// What came of the call of a method.
#[derive(Debug, PartialEq)]
pub enum Evaluation<T> {
    /// The interpreter raised an error.
    Raised(String),
    /// The method returned the interpreter's null.
    Null,
    /// The method returned this.
    Value(T),
    /// The method returned a value that is not of the type asked for.
    Unconvertible(String),
}

/// Why a method that was found gave no value.
#[derive(Debug, PartialEq)]
pub enum DispatchError {
    /// The interpreter raised an error while it ran the method.
    Evaluation(String),
    /// What the method returned is not of the type asked for.
    Conversion(String),
}

/// Whether `result` is the result of a dispatch whose method came to
/// `evaluation`: a method that returned null counts as no method at all; the
/// value that it returned is the result; anything else is an error.
pub open spec fn dispatch_outcome<T>(
    evaluation: Evaluation<T>,
    result: Option<Result<T, DispatchError>>,
) -> bool {
    match evaluation {
        Evaluation::Raised(error) => result == Some(
            Err::<T, DispatchError>(DispatchError::Evaluation(error)),
        ),
        Evaluation::Null => result is None,
        Evaluation::Value(value) => result == Some(Ok::<T, DispatchError>(value)),
        Evaluation::Unconvertible(error) => {
            &&& result matches Some(Err(DispatchError::Conversion(message)))
            &&& message@ == "Conversion failed: "@ + error@
        },
    }
}

/// Turns what came of the call of a method into the result of the dispatch.
pub fn dispatch_result<T>(evaluation: Evaluation<T>) -> (result: Option<Result<T, DispatchError>>)
    ensures
        dispatch_outcome(evaluation, result),
{
    match evaluation {
        Evaluation::Raised(error) => Some(Err(DispatchError::Evaluation(error))),
        Evaluation::Null => None,
        Evaluation::Value(value) => Some(Ok(value)),
        Evaluation::Unconvertible(error) => {
            let mut message = "Conversion failed: ".to_owned();
            message.append(error.as_str());
            Some(Err(DispatchError::Conversion(message)))
        },
    }
}

impl ArkGenerics {
    /// The method that answers this generic for a value of the given classes.
    pub fn find_method<'a, V>(&self, table: &'a MethodsTable<V>, classes: &Vec<String>) -> (method:
        Option<&'a Method<V>>)
        ensures
            match method {
                Some(found) => method_for(table@, *self, class_names(classes@)) == Some(found@),
                None => method_for(table@, *self, class_names(classes@)) is None,
            },
    {
        let ghost names = class_names(classes@);
        let mut i: usize = 0;
        assert(names.skip(0) =~= names);
        while i < classes.len()
            invariant
                i <= classes.len(),
                names == class_names(classes@),
                method_for(table@, *self, names) == method_for(table@, *self, names.skip(i as int)),
            decreases classes.len() - i,
        {
            let found = table.get(*self, classes[i].as_str());
            assert(names.skip(i as int)[0] == classes@[i as int]@);
            if found.is_some() {
                return found;
            }
            assert(names.skip(i as int).drop_first() =~= names.skip(i + 1));
            i = i + 1;
        }
        None
    }

    /// The method that a dispatch of this generic on `x` calls, if it calls
    /// one. Nothing is looked up for a value that is no object.
    pub fn dispatch_method<'a, V>(&self, table: &'a MethodsTable<V>, x: &Target) -> (method: Option<
        &'a Method<V>,
    >)
        ensures
            match method {
                Some(found) => dispatched(table@, *self, *x) == Some(found@),
                None => dispatched(table@, *self, *x) is None,
            },
    {
        if !x.is_object {
            return None;
        }
        self.find_method(table, &x.classes)
    }

    /// Asks the generic of the value `x`, with the further arguments `args`.
    ///
    /// Returns `None` where `x` has no method: where it is no object, where
    /// nothing is registered for its classes, and where the method returned
    /// null. `call` is then not called unless a method was found. Otherwise
    /// `call` is handed the method and the arguments, and the result says
    /// what came of it: the value, or the error.
    pub fn try_dispatch<V, A, T, F>(
        &self,
        table: &MethodsTable<V>,
        x: &Target,
        args: A,
        call: F,
    ) -> (result: Option<Result<T, DispatchError>>) where F: FnOnce(&Method<V>, A) -> Evaluation<T>
        requires
            forall|method: &Method<V>| call_requires(call, (method, args)),
        ensures
            match dispatched(table@, *self, *x) {
                Some(found) => exists|method: &Method<V>, evaluation: Evaluation<T>|
                    {
                        &&& method@ == found
                        &&& call_ensures(call, (method, args), evaluation)
                        &&& dispatch_outcome(evaluation, result)
                    },
                None => result is None,
            },
    {
        match self.dispatch_method(table, x) {
            Some(method) => {
                let evaluation = call(method, args);
                dispatch_result(evaluation)
            },
            None => None,
        }
    }

    /// Checks whether a method is registered for a value of the given
    /// classes.
    pub fn has_method<V>(&self, table: &MethodsTable<V>, x: &Target) -> (has: bool)
        ensures
            has == method_for(table@, *self, class_names(x.classes@)).is_some(),
    {
        self.find_method(table, &x.classes).is_some()
    }

    /// Registers `method` as the method of `generic` for `class`, in place of
    /// any that was registered for them before.
    pub fn register_method<V>(
        table: &mut MethodsTable<V>,
        generic: Self,
        class: &str,
        method: Method<V>,
    )
        ensures
            final(table)@ == old(table)@.insert((generic, class@), method@),
    {
        table.insert(generic, class, method);
    }

    /// Registers, as the method of `generic` for `class`, the function that
    /// `package` keeps for them: the one bound, in its namespace, to the
    /// name of the generic, a dot and the class.
    pub fn register_method_from_package<V>(
        table: &mut MethodsTable<V>,
        generic: Self,
        class: &str,
        package: &str,
    )
        ensures
            final(table)@ == old(table)@.insert(
                (generic, class@),
                MethodView::Qualified { package: package@, symbol: method_symbol(generic, class@) },
            ),
    {
        let mut symbol = generic.as_str().to_owned();
        symbol.append(".");
        symbol.append(class);
        proof {
            reveal_strlit(".");
            assert("."@ =~= seq!['.']);
        }
        let method = Method::Qualified { package: package.to_owned(), symbol };
        Self::register_method(table, generic, class, method);
    }
}

/// How a symbol is bound in a namespace.
#[derive(Clone, Copy, Debug, PartialEq, Eq, Structural)]
pub enum BindingKind {
    /// An ordinary value.
    Standard,
    /// A value that is computed when it is first used.
    Promise,
    /// A function that is called whenever the symbol is read.
    Active,
    /// A value in an alternative representation.
    Altrep,
}

/// A symbol of a namespace, and how it is bound.
#[derive(Debug, PartialEq)]
pub struct Binding {
    pub name: String,
    pub kind: BindingKind,
}

/// A namespace that is loaded in the interpreter.
#[derive(Debug, PartialEq)]
pub struct Namespace {
    pub package: String,
    /// The bindings of the namespace, each `None` where it could not be read;
    /// `None` as a whole where the namespace could not be read.
    pub symbols: Option<Vec<Option<Binding>>>,
}

/// What a symbol of a namespace registers: the method that its name stands
/// for, where it is bound to an ordinary value or to a promise. A binding
/// that could not be read registers nothing.
pub open spec fn registers(symbol: Option<Binding>) -> Option<(ArkGenerics, Seq<char>)> {
    match symbol {
        Some(binding) => if binding.kind == BindingKind::Standard || binding.kind
            == BindingKind::Promise {
            parsed_method(binding.name@)
        } else {
            None
        },
        None => None,
    }
}

/// The table after the methods among `symbols` were registered, in order, as
/// methods kept by `package`.
pub open spec fn populated<V>(
    table: Map<(ArkGenerics, Seq<char>), MethodView<V>>,
    package: Seq<char>,
    symbols: Seq<Option<Binding>>,
) -> Map<(ArkGenerics, Seq<char>), MethodView<V>>
    decreases symbols.len(),
{
    if symbols.len() == 0 {
        table
    } else {
        let before = populated(table, package, symbols.drop_last());
        match registers(symbols.last()) {
            Some((generic, class)) => before.insert(
                (generic, class),
                MethodView::Qualified { package, symbol: method_symbol(generic, class) },
            ),
            None => before,
        }
    }
}

/// The bindings of a namespace, where it could be read.
pub open spec fn symbols_of(namespace: Namespace) -> Seq<Option<Binding>> {
    match namespace.symbols {
        Some(symbols) => symbols@,
        None => Seq::empty(),
    }
}

/// The table after the methods of `namespaces` were registered, one
/// namespace after the other. A namespace that could not be read adds
/// nothing.
pub open spec fn populated_from<V>(
    table: Map<(ArkGenerics, Seq<char>), MethodView<V>>,
    namespaces: Seq<Namespace>,
) -> Map<(ArkGenerics, Seq<char>), MethodView<V>>
    decreases namespaces.len(),
{
    if namespaces.len() == 0 {
        table
    } else {
        populated(
            populated_from(table, namespaces.drop_last()),
            namespaces.last().package@,
            symbols_of(namespaces.last()),
        )
    }
}

/// Registers the methods that the namespace of `package` holds, given its
/// bindings. A binding that could not be read, or that names no method, is
/// passed over, and the scan goes on.
pub fn populate_variable_methods_table<V>(
    table: &mut MethodsTable<V>,
    package: &str,
    symbols: &Vec<Option<Binding>>,
)
    ensures
        final(table)@ == populated(old(table)@, package@, symbols@),
{
    let mut i: usize = 0;
    assert(symbols@.take(0) =~= Seq::empty());
    while i < symbols.len()
        invariant
            i <= symbols.len(),
            table@ == populated(old(table)@, package@, symbols@.take(i as int)),
        decreases symbols.len() - i,
    {
        assert(symbols@.take(i + 1).drop_last() =~= symbols@.take(i as int));
        assert(symbols@.take(i + 1).last() == symbols@[i as int]);
        match &symbols[i] {
            Some(binding) => {
                if binding.kind == BindingKind::Standard || binding.kind == BindingKind::Promise {
                    match ArkGenerics::parse_method(&binding.name) {
                        Some((generic, class)) => {
                            ArkGenerics::register_method_from_package(
                                table,
                                generic,
                                class.as_str(),
                                package,
                            );
                        },
                        None => {},
                    }
                }
            },
            None => {},
        }
        i = i + 1;
    }
    assert(symbols@.take(i as int) =~= symbols@);
}

/// Registers the methods of every namespace in `namespaces`, one namespace
/// after the other. A namespace that could not be read is passed over.
pub fn populate_methods_from_loaded_namespaces<V>(
    table: &mut MethodsTable<V>,
    namespaces: &Vec<Namespace>,
)
    ensures
        final(table)@ == populated_from(old(table)@, namespaces@),
{
    let mut i: usize = 0;
    assert(namespaces@.take(0) =~= Seq::empty());
    while i < namespaces.len()
        invariant
            i <= namespaces.len(),
            table@ == populated_from(old(table)@, namespaces@.take(i as int)),
        decreases namespaces.len() - i,
    {
        assert(namespaces@.take(i + 1).drop_last() =~= namespaces@.take(i as int));
        assert(namespaces@.take(i + 1).last() == namespaces@[i as int]);
        let namespace = &namespaces[i];
        match &namespace.symbols {
            Some(symbols) => {
                populate_variable_methods_table(table, namespace.package.as_str(), symbols);
            },
            None => {},
        }
        i = i + 1;
    }
    assert(namespaces@.take(i as int) =~= namespaces@);
}

/// A value for none of whose classes a method of a generic is registered has
/// no method of it: the dispatch finds nothing, which is no error.
pub proof fn lemma_unregistered_is_absent<V>(
    table: Map<(ArkGenerics, Seq<char>), MethodView<V>>,
    generic: ArkGenerics,
    target: Target,
)
    requires
        forall|i: int|
            0 <= i < target.classes@.len() ==> !table.contains_key(
                (generic, #[trigger] target.classes@[i]@),
            ),
    ensures
        dispatched(table, generic, target) is None,
{
    lemma_no_method_for(table, generic, class_names(target.classes@));
}

proof fn lemma_no_method_for<V>(
    table: Map<(ArkGenerics, Seq<char>), MethodView<V>>,
    generic: ArkGenerics,
    classes: Seq<Seq<char>>,
)
    requires
        forall|i: int| 0 <= i < classes.len() ==> !table.contains_key((generic, classes[i])),
    ensures
        method_for(table, generic, classes) is None,
    decreases classes.len(),
{
    if classes.len() > 0 {
        assert forall|i: int| 0 <= i < classes.drop_first().len() implies !table.contains_key(
            (generic, classes.drop_first()[i]),
        ) by {
            assert(classes.drop_first()[i] == classes[i + 1]);
        }
        lemma_no_method_for(table, generic, classes.drop_first());
    }
}

/// A method that was just registered is the one that the dispatch finds for
/// an object whose first class is the class it was registered for.
pub proof fn lemma_registered_is_dispatched<V>(
    table: Map<(ArkGenerics, Seq<char>), MethodView<V>>,
    generic: ArkGenerics,
    class: Seq<char>,
    method: MethodView<V>,
    target: Target,
)
    requires
        target.is_object,
        target.classes@.len() > 0,
        target.classes@[0]@ == class,
    ensures
        dispatched(table.insert((generic, class), method), generic, target) == Some(method),
{
    assert(class_names(target.classes@)[0] == class);
}

/// Of two methods registered for the same generic and class, the later one
/// stays: the table is as if the earlier one had never been registered.
pub proof fn lemma_last_registration_wins<V>(
    table: Map<(ArkGenerics, Seq<char>), MethodView<V>>,
    generic: ArkGenerics,
    class: Seq<char>,
    earlier: MethodView<V>,
    later: MethodView<V>,
)
    ensures
        table.insert((generic, class), earlier).insert((generic, class), later) == table.insert(
            (generic, class),
            later,
        ),
{
    assert(table.insert((generic, class), earlier).insert((generic, class), later)
        =~= table.insert((generic, class), later));
}

/// To register a method again changes nothing.
pub proof fn lemma_registration_is_idempotent<V>(
    table: Map<(ArkGenerics, Seq<char>), MethodView<V>>,
    generic: ArkGenerics,
    class: Seq<char>,
    method: MethodView<V>,
)
    ensures
        table.insert((generic, class), method).insert((generic, class), method) == table.insert(
            (generic, class),
            method,
        ),
{
    lemma_last_registration_wins(table, generic, class, method, method);
}

/// Among the symbols of one namespace that name the same method the scan
/// keeps what the namespace holds: after it, the method is the one of that
/// package, whatever was registered before.
pub proof fn lemma_populated_holds<V>(
    table: Map<(ArkGenerics, Seq<char>), MethodView<V>>,
    package: Seq<char>,
    symbols: Seq<Option<Binding>>,
    i: int,
)
    requires
        0 <= i < symbols.len(),
        registers(symbols[i]) is Some,
    ensures
        ({
            let (generic, class) = registers(symbols[i])->0;
            let after = populated(table, package, symbols);
            &&& after.contains_key((generic, class))
            &&& after[(generic, class)] == (MethodView::Qualified::<V> {
                package,
                symbol: method_symbol(generic, class),
            })
        }),
    decreases symbols.len(),
{
    if i < symbols.len() - 1 {
        lemma_populated_holds(table, package, symbols.drop_last(), i);
    }
}

/// Where several namespaces hold a method of the same generic and class, the
/// one populated last wins.
pub proof fn lemma_last_namespace_wins<V>(
    table: Map<(ArkGenerics, Seq<char>), MethodView<V>>,
    namespaces: Seq<Namespace>,
    i: int,
)
    requires
        namespaces.len() > 0,
        0 <= i < symbols_of(namespaces.last()).len(),
        registers(symbols_of(namespaces.last())[i]) is Some,
    ensures
        ({
            let (generic, class) = registers(symbols_of(namespaces.last())[i])->0;
            let after = populated_from(table, namespaces);
            &&& after.contains_key((generic, class))
            &&& after[(generic, class)] == (MethodView::Qualified::<V> {
                package: namespaces.last().package@,
                symbol: method_symbol(generic, class),
            })
        }),
{
    lemma_populated_holds(
        populated_from(table, namespaces.drop_last()),
        namespaces.last().package@,
        symbols_of(namespaces.last()),
        i,
    );
}

/// The names of the generics, character by character.
proof fn lemma_names()
    ensures
        ArkGenerics::VariableDisplayValue.name() =~= seq![
            'a', 'r', 'k', '_', 'v', 'a', 'r', 'i', 'a', 'b', 'l', 'e', '_', 'd', 'i', 's', 'p',
            'l', 'a', 'y', '_', 'v', 'a', 'l', 'u', 'e',
        ],
        ArkGenerics::VariableDisplayType.name() =~= seq![
            'a', 'r', 'k', '_', 'v', 'a', 'r', 'i', 'a', 'b', 'l', 'e', '_', 'd', 'i', 's', 'p',
            'l', 'a', 'y', '_', 't', 'y', 'p', 'e',
        ],
        ArkGenerics::VariableHasChildren.name() =~= seq![
            'a', 'r', 'k', '_', 'v', 'a', 'r', 'i', 'a', 'b', 'l', 'e', '_', 'h', 'a', 's', '_',
            'c', 'h', 'i', 'l', 'd', 'r', 'e', 'n',
        ],
        ArkGenerics::VariableKind.name() =~= seq![
            'a', 'r', 'k', '_', 'v', 'a', 'r', 'i', 'a', 'b', 'l', 'e', '_', 'k', 'i', 'n', 'd',
        ],
{
    reveal_strlit("ark_variable_display_value");
    reveal_strlit("ark_variable_display_type");
    reveal_strlit("ark_variable_has_children");
    reveal_strlit("ark_variable_kind");
}

/// The name of a generic holds no dot, and no name of a generic begins
/// another followed by a dot.
proof fn lemma_names_apart(generic: ArkGenerics, other: ArkGenerics, rest: Seq<char>)
    ensures
        forall|i: int| 0 <= i < generic.name().len() ==> generic.name()[i] != '.',
        other.name().is_prefix_of(generic.name() + seq!['.'] + rest) ==> other == generic,
{
    lemma_names();
    let symbol = generic.name() + seq!['.'] + rest;
    if other != generic && other.name().is_prefix_of(symbol) {
        let n = other.name().len() as int;
        let head = symbol.subrange(0, n);
        assert(head == other.name());
        assert(head[13] == other.name()[13]);
        assert(head[21] == other.name()[21]) by {
            if n > 21 {
            }
        }
        assert(symbol[13] == generic.name()[13]);
        if generic.name().len() > 21 {
            assert(symbol[21] == generic.name()[21]);
        }
        if n > 17 && generic.name().len() == 17 {
            assert(head[17] == symbol[17]);
            assert(symbol[17] == '.');
        }
        assert(false);
    }
}

/// The name under which a package keeps the method of a generic for a class
/// names that method: it is parsed back into the generic and the class.
pub proof fn lemma_symbol_names_its_method(generic: ArkGenerics, class: Seq<char>)
    ensures
        parsed_method(method_symbol(generic, class)) == Some((generic, class)),
{
    let symbol = method_symbol(generic, class);
    let dot = generic.name().len() as int;
    lemma_names_apart(generic, ArkGenerics::VariableDisplayValue, class);
    lemma_names_apart(generic, ArkGenerics::VariableDisplayType, class);
    lemma_names_apart(generic, ArkGenerics::VariableHasChildren, class);
    lemma_names_apart(generic, ArkGenerics::VariableKind, class);
    assert(symbol.subrange(0, dot) =~= generic.name());
    assert(generic.name().is_prefix_of(symbol));
    assert(generic_of(symbol) == Some(generic));
    assert(symbol[dot] == '.');
    assert forall|j: int| 0 <= j < dot implies symbol[j] != '.' by {
        assert(symbol[j] == generic.name()[j]);
    }
    crate::text::lemma_first_index_unique(symbol, '.', dot);
    assert(symbol.skip(dot + 1) =~= class);
}

/// No two generics have the same name.
pub proof fn lemma_names_are_distinct(a: ArkGenerics, b: ArkGenerics)
    requires
        a.name() == b.name(),
    ensures
        a == b,
{
    lemma_names();
    if a != b {
        assert(a.name().len() == b.name().len());
        assert(a.name()[13] == b.name()[13]);
        assert(a.name()[21] == b.name()[21]);
    }
}

} // verus!
