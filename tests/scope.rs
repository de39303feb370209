use libsurfer::scope::{
    DataContainer, Message, ScopeContents, ScopeError, ScopeRef, ScopeType, StreamScopeRef,
    SystemState, TransactionContainer, TransactionGenerator, TransactionStream,
    TransactionStreamRef, VariablePanel, VariableRef, WaveContainer, WaveData,
};
use libsurfer::variable_filter::{VariableFilter, VariableNameFilterType};

fn vars(first_id: u64, names: &[&str]) -> Vec<VariableRef> {
    names
        .iter()
        .enumerate()
        .map(|(i, n)| VariableRef::new(first_id + i as u64, n.to_string()))
        .collect()
}

fn names(vs: &[VariableRef]) -> Vec<String> {
    vs.iter().map(|v| v.name.clone()).collect()
}

fn waves() -> DataContainer {
    DataContainer::Waves(WaveContainer {
        scopes: vec![
            ScopeContents {
                scope: ScopeRef { id: 1 },
                variables: vars(10, &["sig10", "clk", "sig2", "rst", "sig1"]),
                parameters: vars(20, &["WIDTH", "DEPTH"]),
            },
            ScopeContents {
                scope: ScopeRef { id: 2 },
                variables: vars(30, &["a"]),
                parameters: Vec::new(),
            },
        ],
    })
}

fn transactions() -> DataContainer {
    DataContainer::Transactions(TransactionContainer {
        streams: vec![
            TransactionStream { id: 1, name: "bus".to_string(), generators: vec![12, 10, 11] },
            TransactionStream { id: 2, name: "dma".to_string(), generators: vec![] },
            TransactionStream { id: 3, name: "broken".to_string(), generators: vec![10, 99, 98] },
        ],
        generators: vec![
            TransactionGenerator { stream_id: 1, id: 10, name: "read".to_string() },
            TransactionGenerator { stream_id: 1, id: 11, name: "write".to_string() },
            TransactionGenerator { stream_id: 1, id: 12, name: "idle".to_string() },
        ],
    })
}

fn state(inner: DataContainer, scope: Option<ScopeType>) -> SystemState {
    SystemState {
        waves: Some(WaveData { inner, active_scope: scope }),
        variable_filter: VariableFilter::new(),
        show_parameters_in_scopes: false,
        expand_parameter_section: true,
    }
}

fn stream_names(msgs: &[Message]) -> Vec<(u64, Option<u64>, String)> {
    msgs.iter()
        .map(|m| match m {
            Message::AddStreamOrGenerator(r) => (r.stream_id, r.gen_id, r.name.clone()),
            other => panic!("unexpected message {other:?}"),
        })
        .collect()
}

#[test]
fn no_data_lists_and_adds_nothing() {
    let s = SystemState {
        waves: None,
        variable_filter: VariableFilter::new(),
        show_parameters_in_scopes: false,
        expand_parameter_section: false,
    };
    assert!(matches!(s.variable_panel(), Ok(VariablePanel::Nothing)));
    assert!(s.add_all_messages().unwrap().is_empty());
}

#[test]
fn no_active_scope_lists_nothing() {
    let s = state(waves(), None);
    assert!(matches!(s.variable_panel(), Ok(VariablePanel::Nothing)));
    assert!(s.add_all_messages().unwrap().is_empty());
}

#[test]
fn stream_scope_on_waves_fails() {
    let s = state(waves(), Some(ScopeType::StreamScope(StreamScopeRef::Root)));
    assert_eq!(s.variable_panel().err(), Some(ScopeError::ScopeKindMismatch));
    assert_eq!(s.add_all_messages().err(), Some(ScopeError::ScopeKindMismatch));
}

#[test]
fn wave_scope_on_transactions_fails() {
    let s = state(transactions(), Some(ScopeType::WaveScope(ScopeRef { id: 1 })));
    assert_eq!(s.variable_panel().err(), Some(ScopeError::ScopeKindMismatch));
    assert_eq!(s.add_all_messages().err(), Some(ScopeError::ScopeKindMismatch));
}

#[test]
fn parameters_get_their_own_section() {
    let s = state(waves(), Some(ScopeType::WaveScope(ScopeRef { id: 1 })));
    match s.variable_panel().unwrap() {
        VariablePanel::Variables { parameters, variables } => {
            assert_eq!(parameters.len(), 2);
            assert_eq!(names(&parameters), vec!["WIDTH", "DEPTH"]);
            assert_eq!(variables.len(), 5);
            assert_eq!(names(&variables), vec!["clk", "rst", "sig1", "sig2", "sig10"]);
        }
        other => panic!("unexpected panel {other:?}"),
    }
}

#[test]
fn parameters_shown_in_scopes_leave_no_section() {
    let mut s = state(waves(), Some(ScopeType::WaveScope(ScopeRef { id: 1 })));
    s.show_parameters_in_scopes = true;
    match s.variable_panel().unwrap() {
        VariablePanel::Variables { parameters, variables } => {
            assert!(parameters.is_empty());
            assert_eq!(variables.len(), 5);
        }
        other => panic!("unexpected panel {other:?}"),
    }
}

#[test]
fn filter_applies_to_variables_not_parameters() {
    let mut s = state(waves(), Some(ScopeType::WaveScope(ScopeRef { id: 1 })));
    s.variable_filter.name_filter_str = "sig".to_string();
    match s.variable_panel().unwrap() {
        VariablePanel::Variables { parameters, variables } => {
            assert_eq!(parameters.len(), 2);
            assert_eq!(names(&variables), vec!["sig1", "sig2", "sig10"]);
        }
        other => panic!("unexpected panel {other:?}"),
    }
}

#[test]
fn unknown_scope_has_no_variables() {
    let s = state(waves(), Some(ScopeType::WaveScope(ScopeRef { id: 7 })));
    match s.variable_panel().unwrap() {
        VariablePanel::Variables { parameters, variables } => {
            assert!(parameters.is_empty());
            assert!(variables.is_empty());
        }
        other => panic!("unexpected panel {other:?}"),
    }
}

#[test]
fn add_all_sends_filtered_sorted_variables() {
    let mut s = state(waves(), Some(ScopeType::WaveScope(ScopeRef { id: 1 })));
    s.variable_filter.name_filter_type = VariableNameFilterType::Regex;
    s.variable_filter.name_filter_str = "^sig".to_string();
    let msgs = s.add_all_messages().unwrap();
    assert_eq!(msgs.len(), 1);
    match &msgs[0] {
        Message::AddVariables(vs) => assert_eq!(names(vs), vec!["sig1", "sig2", "sig10"]),
        other => panic!("unexpected message {other:?}"),
    }
}

#[test]
fn add_all_on_stream_sends_one_message_per_generator() {
    let s = state(transactions(), Some(ScopeType::StreamScope(StreamScopeRef::Stream(1))));
    let msgs = s.add_all_messages().unwrap();
    assert_eq!(msgs.len(), 3);
    assert_eq!(
        stream_names(&msgs),
        vec![
            (1, Some(12), "idle".to_string()),
            (1, Some(10), "read".to_string()),
            (1, Some(11), "write".to_string()),
        ]
    );
}

#[test]
fn add_all_on_root_sends_every_stream() {
    let s = state(transactions(), Some(ScopeType::StreamScope(StreamScopeRef::Root)));
    let msgs = s.add_all_messages().unwrap();
    assert_eq!(
        stream_names(&msgs),
        vec![
            (1, None, "bus".to_string()),
            (2, None, "dma".to_string()),
            (3, None, "broken".to_string()),
        ]
    );
}

#[test]
fn add_all_on_empty_stream_scope_sends_nothing() {
    let s = state(
        transactions(),
        Some(ScopeType::StreamScope(StreamScopeRef::Empty(String::new()))),
    );
    assert!(s.add_all_messages().unwrap().is_empty());
    let s = state(transactions(), Some(ScopeType::StreamScope(StreamScopeRef::Stream(2))));
    assert!(s.add_all_messages().unwrap().is_empty());
}

#[test]
fn stream_panel_lists_generators_in_stream_order() {
    let s = state(transactions(), Some(ScopeType::StreamScope(StreamScopeRef::Stream(1))));
    match s.variable_panel().unwrap() {
        VariablePanel::StreamItems(items) => {
            assert_eq!(
                items,
                vec![
                    TransactionStreamRef::new_gen(1, 12, "idle".to_string()),
                    TransactionStreamRef::new_gen(1, 10, "read".to_string()),
                    TransactionStreamRef::new_gen(1, 11, "write".to_string()),
                ]
            );
        }
        other => panic!("unexpected panel {other:?}"),
    }
}

#[test]
fn unknown_stream_is_an_error() {
    let s = state(transactions(), Some(ScopeType::StreamScope(StreamScopeRef::Stream(9))));
    assert_eq!(s.add_all_messages().err(), Some(ScopeError::MissingStream(9)));
    assert_eq!(s.variable_panel().err(), Some(ScopeError::MissingStream(9)));
}

#[test]
fn first_unknown_generator_is_the_error() {
    let s = state(transactions(), Some(ScopeType::StreamScope(StreamScopeRef::Stream(3))));
    assert_eq!(s.add_all_messages().err(), Some(ScopeError::MissingGenerator(99)));
    assert_eq!(s.variable_panel().err(), Some(ScopeError::MissingGenerator(99)));
}

#[test]
fn case_toggle_flips_the_flag() {
    let s = state(waves(), None);
    assert!(matches!(
        s.case_toggle_message(),
        Message::SetVariableNameFilterCaseInsensitive(false)
    ));
}
