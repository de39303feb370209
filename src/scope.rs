//! The data behind the variable panel, and how the active scope resolves to
//! what the panel lists and what "add all" sends.
use crate::matching::{regex_compiles, CompiledRegex};
use crate::variable_filter::{sort_by_name, sorted_by_name, VariableFilter, VariableNameFilterType};
use vstd::prelude::*;

verus! {

/// A variable of the design: its identity in the loaded data, which is
/// qualified by its scope, and the name that the panel shows.
#[derive(Debug, Clone, PartialEq, Eq, Hash)]
pub struct VariableRef {
    pub id: u64,
    pub name: String,
}

impl VariableRef {
    pub fn new(id: u64, name: String) -> (r: VariableRef)
        ensures
            r.id == id,
            r.name == name,
    {
        VariableRef { id, name }
    }

    /// A copy of this reference.
    pub fn duplicate(&self) -> (r: VariableRef)
        ensures
            r == *self,
    {
        VariableRef { id: self.id, name: self.name.clone() }
    }
}

/// A conventional scope of the design (a module or an instance).
#[derive(Debug, Clone, Copy, PartialEq, Eq, Structural, Hash)]
pub struct ScopeRef {
    pub id: u64,
}

/// What a conventional scope declares directly: its variables and, apart,
/// its parameters.
pub struct ScopeContents {
    pub scope: ScopeRef,
    pub variables: Vec<VariableRef>,
    pub parameters: Vec<VariableRef>,
}

/// Loaded conventional waveform data.
pub struct WaveContainer {
    pub scopes: Vec<ScopeContents>,
}

/// A transaction stream and the ids of its generators, in the listed order.
pub struct TransactionStream {
    pub id: u64,
    pub name: String,
    pub generators: Vec<u64>,
}

/// A generator of transactions, belonging to the stream `stream_id`.
pub struct TransactionGenerator {
    pub stream_id: u64,
    pub id: u64,
    pub name: String,
}

/// Loaded transaction data.
pub struct TransactionContainer {
    pub streams: Vec<TransactionStream>,
    pub generators: Vec<TransactionGenerator>,
}

/// The loaded data: either conventional waves or transactions, never both.
pub enum DataContainer {
    Waves(WaveContainer),
    Transactions(TransactionContainer),
}

/// A scope of the transaction hierarchy.
pub enum StreamScopeRef {
    /// The top of the stream hierarchy.
    Root,
    /// The stream with this id.
    Stream(u64),
    /// No stream scope.
    Empty(String),
}

/// The active scope: a conventional scope or a stream scope.
pub enum ScopeType {
    WaveScope(ScopeRef),
    StreamScope(StreamScopeRef),
}

/// A stream (`gen_id` is `None`) or a generator that can be added to the view.
#[derive(Debug, Clone, PartialEq, Eq)]
pub struct TransactionStreamRef {
    pub stream_id: u64,
    pub gen_id: Option<u64>,
    pub name: String,
}

/// What the variable panel asks the application to do.
#[derive(Debug)]
pub enum Message {
    AddVariables(Vec<VariableRef>),
    AddStreamOrGenerator(TransactionStreamRef),
    SetVariableNameFilterCaseInsensitive(bool),
    SetVariableNameFilterType(VariableNameFilterType),
    SetFilterFocused(bool),
}

/// An active scope that does not fit the loaded data.
#[derive(Debug, Clone, Copy, PartialEq, Eq, Structural)]
pub enum ScopeError {
    /// The kind of the active scope is not the kind of the loaded data.
    ScopeKindMismatch,
    /// The loaded data holds no stream with this id.
    MissingStream(u64),
    /// The loaded data holds no generator with this id.
    MissingGenerator(u64),
}

/// The loaded data and the active scope in it.
pub struct WaveData {
    pub inner: DataContainer,
    pub active_scope: Option<ScopeType>,
}

/// The session state that the variable panel reads.
pub struct SystemState {
    pub waves: Option<WaveData>,
    pub variable_filter: VariableFilter,
    pub show_parameters_in_scopes: bool,
    pub expand_parameter_section: bool,
}

/// What the variable panel lists for the active scope.
#[derive(Debug)]
pub enum VariablePanel {
    /// No data or no active scope: nothing is listed.
    Nothing,
    /// A conventional scope: the parameters shown in their own section (empty
    /// when there is none), and the filtered, sorted variables.
    Variables { parameters: Vec<VariableRef>, variables: Vec<VariableRef> },
    /// A stream scope: its streams or generators, in the listed order.
    StreamItems(Vec<TransactionStreamRef>),
}

/// The first scope with this id.
pub open spec fn scope_lookup(s: Seq<ScopeContents>, id: u64) -> Option<ScopeContents>
    decreases s.len(),
{
    if s.len() == 0 {
        None
    } else if s[0].scope.id == id {
        Some(s[0])
    } else {
        scope_lookup(s.drop_first(), id)
    }
}

/// The first stream with this id.
pub open spec fn stream_lookup(s: Seq<TransactionStream>, id: u64) -> Option<TransactionStream>
    decreases s.len(),
{
    if s.len() == 0 {
        None
    } else if s[0].id == id {
        Some(s[0])
    } else {
        stream_lookup(s.drop_first(), id)
    }
}

/// The first generator with this id.
pub open spec fn generator_lookup(s: Seq<TransactionGenerator>, id: u64) -> Option<TransactionGenerator>
    decreases s.len(),
{
    if s.len() == 0 {
        None
    } else if s[0].id == id {
        Some(s[0])
    } else {
        generator_lookup(s.drop_first(), id)
    }
}

pub open spec fn stream_ref(st: TransactionStream) -> TransactionStreamRef {
    TransactionStreamRef { stream_id: st.id, gen_id: None, name: st.name }
}

pub open spec fn generator_ref(g: TransactionGenerator) -> TransactionStreamRef {
    TransactionStreamRef { stream_id: g.stream_id, gen_id: Some(g.id), name: g.name }
}

/// The generators with the ids `ids`, in that order, or the first id that
/// names no generator.
pub open spec fn generator_refs(gens: Seq<TransactionGenerator>, ids: Seq<u64>) -> Result<
    Seq<TransactionStreamRef>,
    u64,
>
    decreases ids.len(),
{
    if ids.len() == 0 {
        Ok(Seq::empty())
    } else {
        match generator_refs(gens, ids.drop_last()) {
            Err(e) => Err(e),
            Ok(p) => match generator_lookup(gens, ids.last()) {
                None => Err(ids.last()),
                Some(g) => Ok(p.push(generator_ref(g))),
            },
        }
    }
}

/// What a stream scope lists: every stream at the root, the generators of
/// a stream, nothing for the empty scope.
pub open spec fn stream_scope_items(t: TransactionContainer, scope: StreamScopeRef) -> Result<
    Seq<TransactionStreamRef>,
    ScopeError,
> {
    match scope {
        StreamScopeRef::Root => Ok(Seq::new(t.streams@.len(), |k: int| stream_ref(t.streams@[k]))),
        StreamScopeRef::Stream(id) => match stream_lookup(t.streams@, id) {
            None => Err(ScopeError::MissingStream(id)),
            Some(st) => match generator_refs(t.generators@, st.generators@) {
                Ok(p) => Ok(p),
                Err(g) => Err(ScopeError::MissingGenerator(g)),
            },
        },
        StreamScopeRef::Empty(_) => Ok(Seq::empty()),
    }
}

/// Whether the kind of the active scope is the kind of the loaded data.
pub open spec fn scope_fits(inner: DataContainer, scope: ScopeType) -> bool {
    match scope {
        ScopeType::WaveScope(_) => inner is Waves,
        ScopeType::StreamScope(_) => inner is Transactions,
    }
}

fn copy_refs(v: &Vec<VariableRef>) -> (r: Vec<VariableRef>)
    ensures
        r@ == v@,
{
    let mut r: Vec<VariableRef> = Vec::new();
    let mut i: usize = 0;
    while i < v.len()
        invariant
            i <= v@.len(),
            r@ == v@.subrange(0, i as int),
        decreases v@.len() - i,
    {
        r.push(v[i].duplicate());
        assert(v@.subrange(0, i + 1) =~= v@.subrange(0, i as int).push(v@[i as int]));
        i += 1;
    }
    assert(v@.subrange(0, v@.len() as int) =~= v@);
    r
}

impl WaveContainer {
    /// The variables declared directly in `scope`; none for an unknown scope.
    pub open spec fn spec_variables_in_scope(&self, scope: ScopeRef) -> Seq<VariableRef> {
        match scope_lookup(self.scopes@, scope.id) {
            Some(c) => c.variables@,
            None => Seq::empty(),
        }
    }

    /// The parameters declared directly in `scope`; none for an unknown scope.
    pub open spec fn spec_parameters_in_scope(&self, scope: ScopeRef) -> Seq<VariableRef> {
        match scope_lookup(self.scopes@, scope.id) {
            Some(c) => c.parameters@,
            None => Seq::empty(),
        }
    }

    fn scope_index(&self, scope: &ScopeRef) -> (r: Option<usize>)
        ensures
            r is None ==> scope_lookup(self.scopes@, scope.id) is None,
            r matches Some(i) ==> i < self.scopes@.len() && scope_lookup(self.scopes@, scope.id)
                == Some(self.scopes@[i as int]),
    {
        let mut i: usize = 0;
        assert(self.scopes@.subrange(0, self.scopes@.len() as int) =~= self.scopes@);
        while i < self.scopes.len()
            invariant
                i <= self.scopes@.len(),
                scope_lookup(self.scopes@, scope.id) == scope_lookup(
                    self.scopes@.subrange(i as int, self.scopes@.len() as int),
                    scope.id,
                ),
            decreases self.scopes@.len() - i,
        {
            let ghost rest = self.scopes@.subrange(i as int, self.scopes@.len() as int);
            assert(rest[0] == self.scopes@[i as int]);
            if self.scopes[i].scope.id == scope.id {
                return Some(i);
            }
            assert(rest.drop_first() =~= self.scopes@.subrange(i + 1, self.scopes@.len() as int));
            i += 1;
        }
        None
    }

    pub fn variables_in_scope(&self, scope: &ScopeRef) -> (r: Vec<VariableRef>)
        ensures
            r@ == self.spec_variables_in_scope(*scope),
    {
        match self.scope_index(scope) {
            Some(i) => copy_refs(&self.scopes[i].variables),
            None => Vec::new(),
        }
    }

    pub fn parameters_in_scope(&self, scope: &ScopeRef) -> (r: Vec<VariableRef>)
        ensures
            r@ == self.spec_parameters_in_scope(*scope),
    {
        match self.scope_index(scope) {
            Some(i) => copy_refs(&self.scopes[i].parameters),
            None => Vec::new(),
        }
    }
}

impl TransactionStreamRef {
    /// A copy of this reference.
    pub fn duplicate(&self) -> (r: TransactionStreamRef)
        ensures
            r == *self,
    {
        TransactionStreamRef { stream_id: self.stream_id, gen_id: self.gen_id, name: self.name.clone() }
    }

    pub fn new_stream(stream_id: u64, name: String) -> (r: TransactionStreamRef)
        ensures
            r == (TransactionStreamRef { stream_id, gen_id: None, name }),
    {
        TransactionStreamRef { stream_id, gen_id: None, name }
    }

    pub fn new_gen(stream_id: u64, gen_id: u64, name: String) -> (r: TransactionStreamRef)
        ensures
            r == (TransactionStreamRef { stream_id, gen_id: Some(gen_id), name }),
    {
        TransactionStreamRef { stream_id, gen_id: Some(gen_id), name }
    }
}

impl TransactionContainer {
    /// The first stream with this id.
    pub fn get_stream(&self, id: u64) -> (r: Option<&TransactionStream>)
        ensures
            r is None ==> stream_lookup(self.streams@, id) is None,
            r matches Some(st) ==> stream_lookup(self.streams@, id) == Some(*st),
    {
        let mut i: usize = 0;
        assert(self.streams@.subrange(0, self.streams@.len() as int) =~= self.streams@);
        while i < self.streams.len()
            invariant
                i <= self.streams@.len(),
                stream_lookup(self.streams@, id) == stream_lookup(
                    self.streams@.subrange(i as int, self.streams@.len() as int),
                    id,
                ),
            decreases self.streams@.len() - i,
        {
            let ghost rest = self.streams@.subrange(i as int, self.streams@.len() as int);
            assert(rest[0] == self.streams@[i as int]);
            if self.streams[i].id == id {
                return Some(&self.streams[i]);
            }
            assert(rest.drop_first() =~= self.streams@.subrange(i + 1, self.streams@.len() as int));
            i += 1;
        }
        None
    }

    /// The first generator with this id.
    pub fn get_generator(&self, id: u64) -> (r: Option<&TransactionGenerator>)
        ensures
            r is None ==> generator_lookup(self.generators@, id) is None,
            r matches Some(g) ==> generator_lookup(self.generators@, id) == Some(*g),
    {
        let mut i: usize = 0;
        assert(self.generators@.subrange(0, self.generators@.len() as int) =~= self.generators@);
        while i < self.generators.len()
            invariant
                i <= self.generators@.len(),
                generator_lookup(self.generators@, id) == generator_lookup(
                    self.generators@.subrange(i as int, self.generators@.len() as int),
                    id,
                ),
            decreases self.generators@.len() - i,
        {
            let ghost rest = self.generators@.subrange(i as int, self.generators@.len() as int);
            assert(rest[0] == self.generators@[i as int]);
            if self.generators[i].id == id {
                return Some(&self.generators[i]);
            }
            assert(rest.drop_first() =~= self.generators@.subrange(
                i + 1,
                self.generators@.len() as int,
            ));
            i += 1;
        }
        None
    }

    /// The streams or generators that a stream scope lists, in the listed
    /// order.
    pub fn stream_scope_items(&self, scope: &StreamScopeRef) -> (r: Result<
        Vec<TransactionStreamRef>,
        ScopeError,
    >)
        ensures
            r matches Ok(v) ==> stream_scope_items(*self, *scope) == Ok::<_, ScopeError>(v@),
            r matches Err(e) ==> stream_scope_items(*self, *scope) == Err::<
                Seq<TransactionStreamRef>,
                _,
            >(e),
    {
        let mut items: Vec<TransactionStreamRef> = Vec::new();
        match scope {
            StreamScopeRef::Root => {
                let mut i: usize = 0;
                while i < self.streams.len()
                    invariant
                        i <= self.streams@.len(),
                        items@ =~= Seq::new(i as nat, |k: int| stream_ref(self.streams@[k])),
                    decreases self.streams@.len() - i,
                {
                    let st = &self.streams[i];
                    items.push(TransactionStreamRef::new_stream(st.id, st.name.clone()));
                    i += 1;
                }
                Ok(items)
            },
            StreamScopeRef::Stream(id) => {
                let st = match self.get_stream(*id) {
                    Some(st) => st,
                    None => return Err(ScopeError::MissingStream(*id)),
                };
                let ids = &st.generators;
                let mut i: usize = 0;
                while i < ids.len()
                    invariant
                        i <= ids@.len(),
                        ids@ == st.generators@,
                        *scope == StreamScopeRef::Stream(*id),
                        stream_lookup(self.streams@, *id) == Some(*st),
                        generator_refs(self.generators@, ids@.subrange(0, i as int)) == Ok::<
                            _,
                            u64,
                        >(items@),
                    decreases ids@.len() - i,
                {
                    assert(ids@.subrange(0, i + 1).drop_last() =~= ids@.subrange(0, i as int));
                    let g = match self.get_generator(ids[i]) {
                        Some(g) => g,
                        None => {
                            proof {
                                let sub = ids@.subrange(0, i + 1);
                                assert(sub.last() == ids@[i as int]);
                                assert(generator_lookup(self.generators@, sub.last()) is None);
                                assert(generator_refs(self.generators@, sub) == Err::<
                                    Seq<TransactionStreamRef>,
                                    u64,
                                >(ids@[i as int]));
                                lemma_generator_refs_error_stays(
                                    self.generators@,
                                    ids@,
                                    i as int + 1,
                                );
                            }
                            return Err(ScopeError::MissingGenerator(ids[i]));
                        },
                    };
                    items.push(TransactionStreamRef::new_gen(g.stream_id, g.id, g.name.clone()));
                    i += 1;
                }
                assert(ids@.subrange(0, ids@.len() as int) =~= ids@);
                Ok(items)
            },
            StreamScopeRef::Empty(_) => Ok(items),
        }
    }
}

/// Once a prefix of the ids names a missing generator, every longer prefix
/// reports that same id.
proof fn lemma_generator_refs_error_stays(gens: Seq<TransactionGenerator>, ids: Seq<u64>, n: int)
    requires
        0 < n <= ids.len(),
        generator_refs(gens, ids.subrange(0, n)) is Err,
    ensures
        generator_refs(gens, ids) == generator_refs(gens, ids.subrange(0, n)),
    decreases ids.len() - n,
{
    if n < ids.len() {
        assert(ids.subrange(0, n + 1).drop_last() =~= ids.subrange(0, n));
        lemma_generator_refs_error_stays(gens, ids, n + 1);
    } else {
        assert(ids.subrange(0, n) =~= ids);
    }
}

/// Whether `r` holds exactly the variables of `m`, in numeric-aware order
/// of their names.
pub open spec fn sorted_permutation(r: Seq<VariableRef>, m: Seq<VariableRef>) -> bool {
    r.to_multiset() == m.to_multiset() && sorted_by_name(r)
}

/// One message adding each stream or generator, in order.
pub open spec fn add_messages(items: Seq<TransactionStreamRef>) -> Seq<Message> {
    Seq::new(items.len(), |k: int| Message::AddStreamOrGenerator(items[k]))
}

/// The generators that a list of ids names, if every id names one: one per
/// id, in the order of the ids.
pub proof fn lemma_generator_refs_one_per_id(gens: Seq<TransactionGenerator>, ids: Seq<u64>)
    requires
        generator_refs(gens, ids) is Ok,
    ensures
        generator_refs(gens, ids)->Ok_0.len() == ids.len(),
        forall|i: int|
            0 <= i < ids.len() ==> (#[trigger] generator_lookup(gens, ids[i])) is Some
                && generator_refs(gens, ids)->Ok_0[i] == generator_ref(
                generator_lookup(gens, ids[i])->Some_0,
            ),
    decreases ids.len(),
{
    if ids.len() > 0 {
        let rest = ids.drop_last();
        lemma_generator_refs_one_per_id(gens, rest);
        assert forall|i: int| 0 <= i < rest.len() implies ids[i] == rest[i] by {}
    }
}

/// "Add all" on a stream sends one message per generator of the stream,
/// in the order in which the stream lists them.
pub proof fn lemma_add_all_one_message_per_generator(
    t: TransactionContainer,
    id: u64,
    st: TransactionStream,
)
    requires
        stream_lookup(t.streams@, id) == Some(st),
        stream_scope_items(t, StreamScopeRef::Stream(id)) is Ok,
    ensures
        add_messages(stream_scope_items(t, StreamScopeRef::Stream(id))->Ok_0).len()
            == st.generators@.len(),
        forall|i: int|
            0 <= i < st.generators@.len() ==> add_messages(
                stream_scope_items(t, StreamScopeRef::Stream(id))->Ok_0,
            )[i] == Message::AddStreamOrGenerator(
                generator_ref(#[trigger] generator_lookup(t.generators@, st.generators@[i])->Some_0),
            ),
{
    lemma_generator_refs_one_per_id(t.generators@, st.generators@);
}

fn add_stream_messages(items: &Vec<TransactionStreamRef>) -> (r: Vec<Message>)
    ensures
        r@ == add_messages(items@),
{
    let mut msgs: Vec<Message> = Vec::new();
    let mut i: usize = 0;
    while i < items.len()
        invariant
            i <= items@.len(),
            msgs@ =~= add_messages(items@.subrange(0, i as int)),
        decreases items@.len() - i,
    {
        msgs.push(Message::AddStreamOrGenerator(items[i].duplicate()));
        i += 1;
    }
    assert(items@.subrange(0, items@.len() as int) =~= items@);
    msgs
}

impl SystemState {
    /// The loaded data and the active scope, when both are there.
    pub open spec fn active(&self) -> Option<(DataContainer, ScopeType)> {
        match self.waves {
            Some(w) => match w.active_scope {
                Some(scope) => Some((w.inner, scope)),
                None => None,
            },
            None => None,
        }
    }

    /// The variables of `variables` that pass `variable_filter`, in
    /// numeric-aware order of their names.
    pub fn filtered_variables(&self, variables: &[VariableRef], variable_filter: &VariableFilter) -> (r:
        Vec<VariableRef>)
        ensures
            sorted_permutation(r@, variable_filter.matching(variables@)),
    {
        sort_by_name(variable_filter.matching_variables(variables))
    }

    /// The messages of "add all" on the active scope: the filtered, sorted
    /// variables of a conventional scope in one message, or one message per
    /// stream or generator that a stream scope lists. An active scope of the
    /// other kind than the loaded data is an error.
    pub fn add_all_messages(&self) -> (r: Result<Vec<Message>, ScopeError>)
        ensures
            self.active() is None ==> (r matches Ok(v) && v@.len() == 0),
            self.active() matches Some((inner, scope)) && !scope_fits(inner, scope) ==> r == Err::<
                Vec<Message>,
                _,
            >(ScopeError::ScopeKindMismatch),
            self.active() matches Some((DataContainer::Waves(c), ScopeType::WaveScope(s))) ==> (
            r matches Ok(v) && v@.len() == 1 && (v@[0] matches Message::AddVariables(vars)
                && sorted_permutation(
                vars@,
                self.variable_filter.matching(c.spec_variables_in_scope(s)),
            ))),
            self.active() matches Some(
                (DataContainer::Transactions(t), ScopeType::StreamScope(ss)),
            ) ==> match stream_scope_items(t, ss) {
                Ok(items) => r matches Ok(v) && v@ == add_messages(items),
                Err(e) => r == Err::<Vec<Message>, _>(e),
            },
    {
        let mut msgs: Vec<Message> = Vec::new();
        let waves = match &self.waves {
            Some(w) => w,
            None => return Ok(msgs),
        };
        let scope = match &waves.active_scope {
            Some(scope) => scope,
            None => return Ok(msgs),
        };
        match (&waves.inner, scope) {
            (DataContainer::Waves(c), ScopeType::WaveScope(s)) => {
                let variables = c.variables_in_scope(s);
                msgs.push(
                    Message::AddVariables(
                        self.filtered_variables(variables.as_slice(), &self.variable_filter),
                    ),
                );
                Ok(msgs)
            },
            (DataContainer::Transactions(t), ScopeType::StreamScope(ss)) => {
                let items = t.stream_scope_items(ss)?;
                Ok(add_stream_messages(&items))
            },
            _ => Err(ScopeError::ScopeKindMismatch),
        }
    }

    /// What the variable panel lists for the active scope. For a
    /// conventional scope: its filtered, sorted variables, and its
    /// parameters in a section of their own unless parameters are shown in
    /// the scope list. For a stream scope: its streams or generators. An
    /// active scope of the other kind than the loaded data is an error.
    pub fn variable_panel(&self) -> (r: Result<VariablePanel, ScopeError>)
        ensures
            self.active() is None ==> r matches Ok(VariablePanel::Nothing),
            self.active() matches Some((inner, scope)) && !scope_fits(inner, scope) ==> r matches Err(
                ScopeError::ScopeKindMismatch,
            ),
            self.active() matches Some((DataContainer::Waves(c), ScopeType::WaveScope(s))) ==> (
            r matches Ok(VariablePanel::Variables { parameters, variables }) && sorted_permutation(
                variables@,
                self.variable_filter.matching(c.spec_variables_in_scope(s)),
            ) && parameters@ == (if self.show_parameters_in_scopes {
                Seq::empty()
            } else {
                c.spec_parameters_in_scope(s)
            })),
            self.active() matches Some(
                (DataContainer::Transactions(t), ScopeType::StreamScope(ss)),
            ) ==> match stream_scope_items(t, ss) {
                Ok(items) => r matches Ok(VariablePanel::StreamItems(v)) && v@ == items,
                Err(e) => r matches Err(e2) && e2 == e,
            },
    {
        let waves = match &self.waves {
            Some(w) => w,
            None => return Ok(VariablePanel::Nothing),
        };
        let scope = match &waves.active_scope {
            Some(scope) => scope,
            None => return Ok(VariablePanel::Nothing),
        };
        match (&waves.inner, scope) {
            (DataContainer::Waves(c), ScopeType::WaveScope(s)) => {
                let all = c.variables_in_scope(s);
                let variables = self.filtered_variables(all.as_slice(), &self.variable_filter);
                let parameters = if self.show_parameters_in_scopes {
                    Vec::new()
                } else {
                    c.parameters_in_scope(s)
                };
                Ok(VariablePanel::Variables { parameters, variables })
            },
            (DataContainer::Transactions(t), ScopeType::StreamScope(ss)) => {
                let items = t.stream_scope_items(ss)?;
                Ok(VariablePanel::StreamItems(items))
            },
            _ => Err(ScopeError::ScopeKindMismatch),
        }
    }

    /// Whether the filter text is shown as an error: a regular-expression
    /// filter whose text does not compile.
    pub fn filter_has_error(&self) -> (r: bool)
        ensures
            r == (self.variable_filter.name_filter_type == VariableNameFilterType::Regex
                && !regex_compiles(self.variable_filter.name_filter_str@, false)),
    {
        match self.variable_filter.name_filter_type {
            VariableNameFilterType::Regex => CompiledRegex::compile(
                self.variable_filter.name_filter_str.as_str(),
                false,
            ).is_none(),
            _ => false,
        }
    }

    /// The message that flips whether the filter ignores case.
    pub fn case_toggle_message(&self) -> (r: Message)
        ensures
            r == Message::SetVariableNameFilterCaseInsensitive(
                !self.variable_filter.name_filter_case_insensitive,
            ),
    {
        Message::SetVariableNameFilterCaseInsensitive(!self.variable_filter.name_filter_case_insensitive)
    }
}

} // verus!
