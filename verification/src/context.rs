//! The object graph of the execution context: the global object, the
//! namespace objects attached to it, and the native functions installed on
//! them.

use vstd::prelude::*;
use vstd::string::StringExecFns;

verus! {

/// A native function that scripts can call.
#[derive(Clone, Copy, Debug, PartialEq, Eq, Structural)]
pub enum Handler {
    /// Writes a value's text to standard output.
    Print,
    /// Writes a value's text and a line terminator to standard output.
    Println,
    /// Reads a file as text.
    ReadFileSync,
}

/// What a property of an object holds.
#[derive(Clone, Copy, Debug, PartialEq, Eq, Structural)]
pub enum Property {
    /// Another object of the same context, by its index.
    Object(usize),
    /// A callable that runs the given native function.
    Function(Handler),
}

/// One assignment of a property: its name and what it is set to.
#[derive(Debug)]
pub struct Install {
    pub name: String,
    pub value: Property,
}

/// A plain property container. It records every assignment in the order it
/// was made; a later assignment to a name shadows the earlier ones.
#[derive(Debug)]
pub struct Namespace {
    installs: Vec<Install>,
}

/// What `name` is set to after the assignments `installs`, made in order:
/// the value of the last assignment to that name, if there is one.
pub open spec fn last_assigned(installs: Seq<(Seq<char>, Property)>, name: Seq<char>) -> Option<
    Property,
>
    decreases installs.len(),
{
    if installs.len() == 0 {
        None
    } else if installs.last().0 == name {
        Some(installs.last().1)
    } else {
        last_assigned(installs.drop_last(), name)
    }
}

/// The properties that result from the assignments `installs`, made in order.
pub open spec fn properties_of(installs: Seq<(Seq<char>, Property)>) -> Map<Seq<char>, Property> {
    Map::new(
        |name: Seq<char>| last_assigned(installs, name) is Some,
        |name: Seq<char>| last_assigned(installs, name).unwrap(),
    )
}

/// One more assignment sets its name and leaves every other name as it was.
pub proof fn lemma_assign_inserts(
    installs: Seq<(Seq<char>, Property)>,
    name: Seq<char>,
    value: Property,
)
    ensures
        properties_of(installs.push((name, value))) == properties_of(installs).insert(
            name,
            value,
        ),
{
    let after = installs.push((name, value));
    assert(after.drop_last() == installs);
    assert forall|k: Seq<char>| #[trigger]
        last_assigned(after, k) == (if k == name {
            Some(value)
        } else {
            last_assigned(installs, k)
        }) by {}
    assert(properties_of(after) =~= properties_of(installs).insert(name, value));
}

/// Assigning the same value to a name twice in a row leaves the properties
/// as one assignment does, and of two assignments to one name the later
/// value stands.
pub proof fn lemma_reassignment_overwrites(
    installs: Seq<(Seq<char>, Property)>,
    name: Seq<char>,
    earlier: Property,
    later: Property,
)
    ensures
        properties_of(installs.push((name, later)).push((name, later))) == properties_of(
            installs.push((name, later)),
        ),
        properties_of(installs.push((name, earlier)).push((name, later))) == properties_of(
            installs.push((name, later)),
        ),
        properties_of(installs.push((name, earlier)).push((name, later)))[name] == later,
{
    lemma_assign_inserts(installs, name, later);
    lemma_assign_inserts(installs, name, earlier);
    lemma_assign_inserts(installs.push((name, later)), name, later);
    lemma_assign_inserts(installs.push((name, earlier)), name, later);
    assert(properties_of(installs).insert(name, later).insert(name, later) =~= properties_of(
        installs,
    ).insert(name, later));
    assert(properties_of(installs).insert(name, earlier).insert(name, later) =~= properties_of(
        installs,
    ).insert(name, later));
}

impl Namespace {
    /// The assignments made so far, oldest first.
    pub closed spec fn log(&self) -> Seq<(Seq<char>, Property)> {
        Seq::new(
            self.installs@.len(),
            |i: int| (self.installs@[i].name@, self.installs@[i].value),
        )
    }

    /// A container without properties.
    pub fn new() -> (namespace: Namespace)
        ensures
            namespace.log() == Seq::<(Seq<char>, Property)>::empty(),
            namespace@ == Map::<Seq<char>, Property>::empty(),
    {
        let namespace = Namespace { installs: Vec::new() };
        assert(namespace.log() =~= Seq::empty());
        assert(namespace@ =~= Map::empty());
        namespace
    }

    /// Sets the property `name` to `value`, whether or not it was set before.
    pub fn set(&mut self, name: &str, value: Property)
        ensures
            final(self).log() == old(self).log().push((name@, value)),
            final(self)@ == old(self)@.insert(name@, value),
    {
        self.installs.push(Install { name: String::from_str(name), value });
        assert(self.log() =~= old(self).log().push((name@, value)));
        proof {
            lemma_assign_inserts(old(self).log(), name@, value);
        }
    }

    /// What the property `name` holds, if it is set.
    pub fn get(&self, name: &str) -> (found: Option<Property>)
        ensures
            found == (if self@.contains_key(name@) {
                Some(self@[name@])
            } else {
                None
            }),
    {
        let wanted = String::from_str(name);
        let mut i: usize = self.installs.len();
        assert(self.log().take(i as int) == self.log());
        while i > 0
            invariant
                i <= self.installs@.len(),
                wanted@ == name@,
                last_assigned(self.log(), name@) == last_assigned(
                    self.log().take(i as int),
                    name@,
                ),
            decreases i,
        {
            let ghost prefix = self.log().take(i as int);
            assert(prefix.last() == self.log()[i - 1]);
            assert(prefix.drop_last() == self.log().take(i - 1));
            if self.installs[i - 1].name == wanted {
                return Some(self.installs[i - 1].value);
            }
            i = i - 1;
        }
        assert(self.log().take(0).len() == 0);
        None
    }

    /// The number of assignments made so far.
    pub fn len(&self) -> (n: usize)
        ensures
            n == self.log().len(),
    {
        self.installs.len()
    }

    /// The assignment made at position `i`, counting from the oldest.
    pub fn install_at(&self, i: usize) -> (install: Option<&Install>)
        ensures
            i < self.log().len() ==> install is Some && (
                install.unwrap().name@,
                install.unwrap().value,
            ) == self.log()[i as int],
            i >= self.log().len() ==> install is None,
    {
        if i < self.installs.len() {
            Some(&self.installs[i])
        } else {
            None
        }
    }
}

impl View for Namespace {
    type V = Map<Seq<char>, Property>;

    open spec fn view(&self) -> Map<Seq<char>, Property> {
        properties_of(self.log())
    }
}

/// The index of the global object in every execution context.
pub const GLOBAL: usize = 0;

/// The global environment in which all scripts run: the global object, at
/// index `GLOBAL`, and the objects created beside it, each a property
/// container.
#[derive(Debug)]
pub struct ExecutionContext {
    objects: Vec<Namespace>,
}

/// The assignments that build the native surface, object by object: the
/// global object holds `Done` and `fs`, `Done` holds `core`, `core` holds
/// `print` and `println`, and `fs` holds `readFileSync`.
pub open spec fn native_surface() -> Seq<Seq<(Seq<char>, Property)>> {
    seq![
        seq![("Done"@, Property::Object(1)), ("fs"@, Property::Object(3))],
        seq![("core"@, Property::Object(2))],
        seq![
            ("print"@, Property::Function(Handler::Print)),
            ("println"@, Property::Function(Handler::Println)),
        ],
        seq![("readFileSync"@, Property::Function(Handler::ReadFileSync))],
    ]
}

impl ExecutionContext {
    /// The assignments made on each object, oldest first.
    pub closed spec fn logs(&self) -> Seq<Seq<(Seq<char>, Property)>> {
        Seq::new(self.objects@.len(), |i: int| self.objects@[i].log())
    }

    /// The global object exists, and every property that holds an object
    /// names one of this context.
    pub open spec fn wf(&self) -> bool {
        &&& self.logs().len() >= 1
        &&& forall|o: int, j: int|
            0 <= o < self.logs().len() && 0 <= j < self.logs()[o].len() ==> (
                #[trigger] self.logs()[o][j].1 matches Property::Object(t) ==> t
                    < self.logs().len())
    }

    /// A context that holds the global object alone, without properties.
    pub fn new() -> (context: ExecutionContext)
        ensures
            context.logs() == seq![Seq::<(Seq<char>, Property)>::empty()],
            context.wf(),
    {
        let mut objects: Vec<Namespace> = Vec::new();
        objects.push(Namespace::new());
        let context = ExecutionContext { objects };
        assert(context.logs() =~= seq![Seq::<(Seq<char>, Property)>::empty()]);
        context
    }

    /// Creates an object without properties and returns its index. It is
    /// reachable from scripts once a property of a reachable object holds it.
    pub fn new_object(&mut self) -> (id: usize)
        requires
            old(self).wf(),
        ensures
            id == old(self).logs().len(),
            final(self).logs() == old(self).logs().push(Seq::<(Seq<char>, Property)>::empty()),
            final(self).wf(),
    {
        let id: usize = self.objects.len();
        self.objects.push(Namespace::new());
        assert(self.logs() =~= old(self).logs().push(Seq::<(Seq<char>, Property)>::empty()));
        id
    }

    /// Sets the property `name` of the object `target` to `value`, over
    /// whatever it held. Refused, with nothing changed, where `target` or an
    /// object that `value` holds is not of this context.
    pub fn set(&mut self, target: usize, name: &str, value: Property) -> (done: bool)
        requires
            old(self).wf(),
        ensures
            done == (target < old(self).logs().len() && (value matches Property::Object(t) ==> t
                < old(self).logs().len())),
            done ==> final(self).logs() == old(self).logs().update(
                target as int,
                old(self).logs()[target as int].push((name@, value)),
            ),
            !done ==> final(self).logs() == old(self).logs(),
            final(self).wf(),
    {
        let count: usize = self.objects.len();
        if target >= count {
            return false;
        }
        if let Property::Object(t) = value {
            if t >= count {
                return false;
            }
        }
        let mut object = self.objects.remove(target);
        object.set(name, value);
        self.objects.insert(target, object);
        assert(self.logs() =~= old(self).logs().update(
            target as int,
            old(self).logs()[target as int].push((name@, value)),
        ));
        true
    }

    /// Installs the native function `handler` on the object `target` as the
    /// callable property `name`. Installing under a name again overwrites.
    pub fn set_function(&mut self, target: usize, name: &str, handler: Handler) -> (done: bool)
        requires
            old(self).wf(),
        ensures
            done == (target < old(self).logs().len()),
            done ==> final(self).logs() == old(self).logs().update(
                target as int,
                old(self).logs()[target as int].push((name@, Property::Function(handler))),
            ),
            !done ==> final(self).logs() == old(self).logs(),
            final(self).wf(),
    {
        self.set(target, name, Property::Function(handler))
    }

    /// What the property `name` of the object `target` holds, if there is
    /// such an object and the property is set.
    pub fn get(&self, target: usize, name: &str) -> (found: Option<Property>)
        ensures
            found == (if target < self@.len() && self@[target as int].contains_key(name@) {
                Some(self@[target as int][name@])
            } else {
                None
            }),
    {
        if target < self.objects.len() {
            self.objects[target].get(name)
        } else {
            None
        }
    }

    /// The number of objects, the global object included.
    pub fn object_count(&self) -> (n: usize)
        ensures
            n == self.logs().len(),
    {
        self.objects.len()
    }

    /// The object at index `id`, if there is one.
    pub fn object(&self, id: usize) -> (object: Option<&Namespace>)
        ensures
            id < self.logs().len() ==> object is Some && object.unwrap().log()
                == self.logs()[id as int],
            id >= self.logs().len() ==> object is None,
    {
        if id < self.objects.len() {
            Some(&self.objects[id])
        } else {
            None
        }
    }
}

impl View for ExecutionContext {
    type V = Seq<Map<Seq<char>, Property>>;

    open spec fn view(&self) -> Seq<Map<Seq<char>, Property>> {
        Seq::new(self.logs().len(), |i: int| properties_of(self.logs()[i]))
    }
}

/// What scripts find on the native surface: the global object holds the
/// container `Done` and the namespace `fs`, `Done` holds `core`, `core`
/// holds the two printing functions, and `fs` holds the file reader.
pub proof fn lemma_native_surface_properties()
    ensures
        properties_of(native_surface()[0]) == Map::<Seq<char>, Property>::empty().insert(
            "Done"@,
            Property::Object(1),
        ).insert("fs"@, Property::Object(3)),
        properties_of(native_surface()[1]) == Map::<Seq<char>, Property>::empty().insert(
            "core"@,
            Property::Object(2),
        ),
        properties_of(native_surface()[2]) == Map::<Seq<char>, Property>::empty().insert(
            "print"@,
            Property::Function(Handler::Print),
        ).insert("println"@, Property::Function(Handler::Println)),
        properties_of(native_surface()[3]) == Map::<Seq<char>, Property>::empty().insert(
            "readFileSync"@,
            Property::Function(Handler::ReadFileSync),
        ),
{
    let nothing = Seq::<(Seq<char>, Property)>::empty();
    assert(properties_of(nothing) =~= Map::<Seq<char>, Property>::empty());

    let done = ("Done"@, Property::Object(1));
    let fs = ("fs"@, Property::Object(3));
    lemma_assign_inserts(nothing, done.0, done.1);
    lemma_assign_inserts(nothing.push(done), fs.0, fs.1);
    assert(native_surface()[0] =~= nothing.push(done).push(fs));

    let core = ("core"@, Property::Object(2));
    lemma_assign_inserts(nothing, core.0, core.1);
    assert(native_surface()[1] =~= nothing.push(core));

    let print = ("print"@, Property::Function(Handler::Print));
    let println = ("println"@, Property::Function(Handler::Println));
    lemma_assign_inserts(nothing, print.0, print.1);
    lemma_assign_inserts(nothing.push(print), println.0, println.1);
    assert(native_surface()[2] =~= nothing.push(print).push(println));

    let read = ("readFileSync"@, Property::Function(Handler::ReadFileSync));
    lemma_assign_inserts(nothing, read.0, read.1);
    assert(native_surface()[3] =~= nothing.push(read));
}

/// Builds the execution context with the native surface in place: the
/// container `Done` with `core` nested in it, `core` with `print` and
/// `println`, and `fs` with `readFileSync`, each assigned in that order.
pub fn build_context() -> (context: ExecutionContext)
    ensures
        context.logs() == native_surface(),
        context.wf(),
{
    let mut context = ExecutionContext::new();

    let done = context.new_object();
    context.set(GLOBAL, "Done", Property::Object(done));

    let core = context.new_object();
    context.set(done, "core", Property::Object(core));
    context.set_function(core, "print", Handler::Print);
    context.set_function(core, "println", Handler::Println);

    let fs = context.new_object();
    context.set(GLOBAL, "fs", Property::Object(fs));
    context.set_function(fs, "readFileSync", Handler::ReadFileSync);

    assert(context.logs() =~~= native_surface());
    context
}

} // verus!
