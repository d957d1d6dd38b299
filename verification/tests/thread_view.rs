//! What the view of a thread shows.
use exagent::events::{RuntimeEvent, RuntimeEventKind};
use exagent::ids::{EventId, ThreadId, TurnId};
use exagent::projection::thread_item_from_event;
use exagent::protocol::{
    ThreadGoalReport, ThreadGoalStatus, ThreadItem, ThreadStatus, TurnStatus,
};
use exagent::replies::FORK_CONTEXT_TURN_ID;
use exagent::thread_view::build_thread_view;
use exagent::types::{
    AssistantTurn, ConversationMessage, ImageDetail, ReasoningBlock, ReasoningSignature,
    ResponseItem, ToolCall, ToolStatus, UserInput,
};

#[test]
fn assistant_thread_item_projection_omits_reasoning_metadata() {
    let event = RuntimeEvent {
        event_id: EventId::new("evt_private"),
        thread_id: ThreadId::new("thread_private"),
        turn_id: Some(TurnId::new("turn_private")),
        kind: RuntimeEventKind::AssistantTurn {
            turn: AssistantTurn {
                text: Some("visible answer".to_string()),
                tool_calls: vec![ToolCall {
                    id: "call_1".to_string(),
                    name: "visible_tool".to_string(),
                    arguments: r#"{"visible":true}"#.to_string(),
                    thought_signature: Some(r#""hidden-tool-signature""#.to_string()),
                }],
                reasoning: vec![ReasoningBlock {
                    text: "hidden reasoning".to_string(),
                    signature: Some(ReasoningSignature::GeminiThoughtSignature(
                        "hidden-reasoning-signature".to_string(),
                    )),
                    redacted: false,
                }],
            },
        },
    };

    let item = thread_item_from_event(&event).expect("assistant item");
    let value = format!("{item:?}");

    assert!(value.contains("visible answer"));
    assert!(!value.contains("hidden reasoning"));
    assert!(!value.contains("hidden-reasoning-signature"));
    assert!(!value.contains("hidden-tool-signature"));
    assert!(!value.contains("reasoning"));
    assert!(!value.contains("thought_signature"));
}

#[test]
fn assistant_thread_item_projection_exposes_reasoning_item_separately() {
    let thread_id = ThreadId::new("thread_reasoning_projection");
    let turn_id = TurnId::new("turn_reasoning_projection");
    let events = vec![
        RuntimeEvent {
            event_id: EventId::new("evt_start"),
            thread_id: thread_id.clone(),
            turn_id: Some(turn_id.clone()),
            kind: RuntimeEventKind::TurnStarted,
        },
        RuntimeEvent {
            event_id: EventId::new("evt_reasoning"),
            thread_id: thread_id.clone(),
            turn_id: Some(turn_id.clone()),
            kind: RuntimeEventKind::Reasoning {
                summary: vec!["Checked the request shape.".to_string()],
                content: vec!["raw provider reasoning".to_string()],
            },
        },
        RuntimeEvent {
            event_id: EventId::new("evt_assistant"),
            thread_id: thread_id.clone(),
            turn_id: Some(turn_id.clone()),
            kind: RuntimeEventKind::AssistantTurn {
                turn: AssistantTurn {
                    text: Some("visible answer".to_string()),
                    tool_calls: vec![],
                    reasoning: vec![ReasoningBlock {
                        text: "raw provider reasoning".to_string(),
                        signature: Some(ReasoningSignature::OpenAiField {
                            field: "reasoning_content".to_string(),
                        }),
                        redacted: false,
                    }],
                },
            },
        },
        RuntimeEvent {
            event_id: EventId::new("evt_done"),
            thread_id: thread_id.clone(),
            turn_id: Some(turn_id),
            kind: RuntimeEventKind::TurnCompleted,
        },
    ];

    let view = build_thread_view(thread_id, ThreadStatus::Idle, None, events, &[]);
    assert_eq!(view.turns.len(), 1);
    assert_eq!(
        view.turns[0].items,
        vec![
            ThreadItem::Reasoning {
                event_id: Some(EventId::new("evt_reasoning")),
                summary: vec!["Checked the request shape.".to_string()],
                content: vec!["raw provider reasoning".to_string()],
            },
            ThreadItem::AssistantMessage {
                event_id: Some(EventId::new("evt_assistant")),
                text: Some("visible answer".to_string()),
            },
        ]
    );
}

#[test]
fn thread_view_projects_goal_report_as_distinct_item() {
    let thread_id = ThreadId::new("thread_goal_report_projection");
    let turn_id = TurnId::new("turn_goal_report_projection");
    let report = ThreadGoalReport {
        goal_id: "goal_1".to_string(),
        objective: "ship morning report".to_string(),
        final_status: ThreadGoalStatus::Complete,
        turns_run: 3,
        tokens_used: 800,
        token_budget: Some(1_000),
        time_used_seconds: 90,
        changed_files: vec![
            "src/runtime/goal/runtime.rs".to_string(),
            "apps/desktop/src/components/TranscriptList.tsx".to_string(),
        ],
        pending_approvals_count: 2,
        summary: "The goal completed after runtime and desktop updates.".to_string(),
    };
    let events = vec![
        RuntimeEvent {
            event_id: EventId::new("evt_start"),
            thread_id: thread_id.clone(),
            turn_id: Some(turn_id.clone()),
            kind: RuntimeEventKind::TurnStarted,
        },
        RuntimeEvent {
            event_id: EventId::new("evt_goal_report"),
            thread_id: thread_id.clone(),
            turn_id: Some(turn_id.clone()),
            kind: RuntimeEventKind::ThreadGoalReport {
                report: report.clone(),
            },
        },
    ];

    let view = build_thread_view(thread_id, ThreadStatus::Idle, None, events, &[]);

    assert_eq!(view.turns.len(), 1);
    assert_eq!(
        view.turns[0].items,
        vec![ThreadItem::GoalReport {
            event_id: Some(EventId::new("evt_goal_report")),
            report,
        }]
    );
}

#[test]
fn thread_view_projects_goal_report_without_turn_id() {
    let thread_id = ThreadId::new("thread_goal_report_without_turn");
    let report = ThreadGoalReport {
        goal_id: "goal_1".to_string(),
        objective: "ship morning report".to_string(),
        final_status: ThreadGoalStatus::Complete,
        turns_run: 3,
        tokens_used: 800,
        token_budget: Some(1_000),
        time_used_seconds: 90,
        changed_files: vec!["src/runtime/goal/runtime.rs".to_string()],
        pending_approvals_count: 0,
        summary: "The goal completed after an external status update.".to_string(),
    };
    let events = vec![RuntimeEvent {
        event_id: EventId::new("evt_goal_report"),
        thread_id: thread_id.clone(),
        turn_id: None,
        kind: RuntimeEventKind::ThreadGoalReport {
            report: report.clone(),
        },
    }];

    let view = build_thread_view(thread_id, ThreadStatus::Idle, None, events, &[]);

    assert_eq!(view.turns.len(), 1);
    assert_eq!(view.turns[0].status, TurnStatus::Completed);
    assert_eq!(
        view.turns[0].items,
        vec![ThreadItem::GoalReport {
            event_id: Some(EventId::new("evt_goal_report")),
            report,
        }]
    );
}

#[test]
fn thread_view_projects_reasoning_from_turn_id_response_items() {
    let thread_id = ThreadId::new("thread_reasoning_response_item");
    let turn_id = TurnId::new("turn_reasoning_response_item");
    let events = vec![
        RuntimeEvent {
            event_id: EventId::new("evt_start"),
            thread_id: thread_id.clone(),
            turn_id: Some(turn_id.clone()),
            kind: RuntimeEventKind::TurnStarted,
        },
        RuntimeEvent {
            event_id: EventId::new("evt_done"),
            thread_id: thread_id.clone(),
            turn_id: Some(turn_id.clone()),
            kind: RuntimeEventKind::TurnCompleted,
        },
    ];
    let response_items = vec![
        ResponseItem::for_turn(
            turn_id.clone(),
            ConversationMessage::user("你真的没有在思考吗"),
        ),
        ResponseItem::for_turn(
            turn_id,
            ConversationMessage::assistant_with_reasoning(
                Some("我在处理，但没有主观意识。".to_string()),
                vec![
                    ReasoningBlock {
                        text: "provider reasoning".to_string(),
                        signature: Some(ReasoningSignature::OpenAiField {
                            field: "reasoning_content".to_string(),
                        }),
                        redacted: false,
                    },
                    ReasoningBlock {
                        text: "redacted provider reasoning".to_string(),
                        signature: None,
                        redacted: true,
                    },
                ],
                vec![],
            ),
        ),
    ];

    let view = build_thread_view(thread_id, ThreadStatus::Idle, None, events, &response_items);

    assert_eq!(
        view.turns[0].items,
        vec![
            ThreadItem::UserMessage {
                text: "你真的没有在思考吗".to_string(),
                input: vec![],
            },
            ThreadItem::Reasoning {
                event_id: None,
                summary: vec![],
                content: vec!["provider reasoning".to_string()],
            },
            ThreadItem::AssistantMessage {
                event_id: None,
                text: Some("我在处理，但没有主观意识。".to_string()),
            },
        ]
    );
}

#[test]
fn thread_view_projects_turn_id_response_items_without_event_skeletons() {
    let thread_id = ThreadId::new("thread_response_items_without_events");
    let turn_id = TurnId::new("turn_response_items_without_events");
    let response_items = vec![
        ResponseItem::for_turn(turn_id.clone(), ConversationMessage::user("hi")),
        ResponseItem::for_turn(
            turn_id.clone(),
            ConversationMessage::assistant(Some("hello".to_string()), vec![]),
        ),
    ];

    let view = build_thread_view(thread_id, ThreadStatus::Idle, None, vec![], &response_items);

    assert_eq!(view.turns.len(), 1);
    assert_eq!(view.turns[0].id, turn_id);
    assert_eq!(view.turns[0].status, TurnStatus::Completed);
    assert_eq!(
        view.turns[0].items,
        vec![
            ThreadItem::UserMessage {
                text: "hi".to_string(),
                input: vec![],
            },
            ThreadItem::AssistantMessage {
                event_id: None,
                text: Some("hello".to_string())
            }
        ]
    );
}

#[test]
fn thread_view_projects_user_image_input() {
    let thread_id = ThreadId::new("thread_response_item_with_image");
    let turn_id = TurnId::new("turn_response_item_with_image");
    let image_path = "/tmp/exagent-input.png".to_string();
    let response_items = vec![ResponseItem::for_turn(
        turn_id.clone(),
        ConversationMessage::user_parts(vec![
            UserInput::Text {
                text: "Use this screenshot".to_string(),
            },
            UserInput::LocalImage {
                path: image_path.clone(),
                detail: Some(ImageDetail::High),
            },
        ]),
    )];

    let view = build_thread_view(thread_id, ThreadStatus::Idle, None, vec![], &response_items);

    assert_eq!(view.turns.len(), 1);
    assert_eq!(
        view.turns[0].items,
        vec![ThreadItem::UserMessage {
            text: "Use this screenshot".to_string(),
            input: vec![
                UserInput::Text {
                    text: "Use this screenshot".to_string()
                },
                UserInput::LocalImage {
                    path: image_path,
                    detail: Some(ImageDetail::High)
                }
            ],
        }]
    );
}

#[test]
fn thread_view_ignores_fork_context_response_items() {
    let thread_id = ThreadId::new("thread_fork_context_response_items");
    let response_items = vec![
        ResponseItem::for_turn(
            TurnId::new(FORK_CONTEXT_TURN_ID),
            ConversationMessage::user("parent context"),
        ),
        ResponseItem::for_turn(
            TurnId::new(FORK_CONTEXT_TURN_ID),
            ConversationMessage::assistant(Some("parent answer".to_string()), vec![]),
        ),
    ];

    let view = build_thread_view(thread_id, ThreadStatus::Idle, None, vec![], &response_items);

    assert!(view.turns.is_empty());
}

#[test]
fn thread_view_projects_user_and_assistant_messages_from_turn_id_items() {
    let thread_id = ThreadId::new("thread_with_user_messages");
    let turn_id = TurnId::new("turn_1");
    let events = vec![
        RuntimeEvent {
            event_id: EventId::new("evt_1"),
            thread_id: thread_id.clone(),
            turn_id: Some(turn_id.clone()),
            kind: RuntimeEventKind::TurnStarted,
        },
        RuntimeEvent {
            event_id: EventId::new("evt_2"),
            thread_id: thread_id.clone(),
            turn_id: Some(turn_id.clone()),
            kind: RuntimeEventKind::TurnCompleted,
        },
    ];
    let response_items = vec![
        ResponseItem::for_turn(
            turn_id.clone(),
            ConversationMessage::injected_system("runtime context"),
        ),
        ResponseItem::for_turn(
            turn_id.clone(),
            ConversationMessage::user("hi 介绍一下你自己吧"),
        ),
        ResponseItem::for_turn(
            turn_id,
            ConversationMessage::assistant(Some("你好，我是 ExAgent。".to_string()), vec![]),
        ),
    ];

    let view = build_thread_view(thread_id, ThreadStatus::Idle, None, events, &response_items);

    assert_eq!(view.turns.len(), 1);
    assert_eq!(
        view.turns[0].items.first(),
        Some(&ThreadItem::UserMessage {
            text: "hi 介绍一下你自己吧".to_string(),
            input: vec![],
        })
    );
    assert_eq!(
        view.turns[0].items.get(1),
        Some(&ThreadItem::AssistantMessage {
            event_id: None,
            text: Some("你好，我是 ExAgent。".to_string())
        })
    );
}

#[test]
fn thread_view_hides_goal_internal_context() {
    let thread_id = ThreadId::new("thread_goal_internal_context");
    let turn_id = TurnId::new("turn_goal_internal_context");
    let events = vec![
        RuntimeEvent {
            event_id: EventId::new("evt_start"),
            thread_id: thread_id.clone(),
            turn_id: Some(turn_id.clone()),
            kind: RuntimeEventKind::TurnStarted,
        },
        RuntimeEvent {
            event_id: EventId::new("evt_done"),
            thread_id: thread_id.clone(),
            turn_id: Some(turn_id.clone()),
            kind: RuntimeEventKind::TurnCompleted,
        },
    ];
    let response_items = vec![
        ResponseItem::for_turn(
            turn_id.clone(),
            ConversationMessage::injected_user_context("goal_snapshot", "hidden goal state"),
        ),
        ResponseItem::for_turn(turn_id, ConversationMessage::user("visible user message")),
    ];

    let view = build_thread_view(thread_id, ThreadStatus::Idle, None, events, &response_items);

    assert_eq!(
        view.turns[0].items,
        vec![ThreadItem::UserMessage {
            text: "visible user message".to_string(),
            input: vec![],
        }]
    );
}

#[test]
fn thread_view_projects_assistant_messages_around_tool_invocations() {
    let thread_id = ThreadId::new("thread_with_tool_messages");
    let turn_id = TurnId::new("turn_1");
    let events = vec![
        RuntimeEvent {
            event_id: EventId::new("evt_1"),
            thread_id: thread_id.clone(),
            turn_id: Some(turn_id.clone()),
            kind: RuntimeEventKind::TurnStarted,
        },
        RuntimeEvent {
            event_id: EventId::new("evt_2"),
            thread_id: thread_id.clone(),
            turn_id: Some(turn_id.clone()),
            kind: RuntimeEventKind::ToolInvocationStarted {
                invocation_id: "inv_call_1".to_string(),
                tool_call_id: "call_1".to_string(),
                tool_name: "run_command".to_string(),
                mutating: false,
            },
        },
        RuntimeEvent {
            event_id: EventId::new("evt_3"),
            thread_id: thread_id.clone(),
            turn_id: Some(turn_id.clone()),
            kind: RuntimeEventKind::ToolInvocationCompleted {
                invocation_id: "inv_call_1".to_string(),
                tool_call_id: "call_1".to_string(),
                tool_name: "run_command".to_string(),
                status: ToolStatus::Success,
            },
        },
        RuntimeEvent {
            event_id: EventId::new("evt_4"),
            thread_id: thread_id.clone(),
            turn_id: Some(turn_id.clone()),
            kind: RuntimeEventKind::TurnCompleted,
        },
    ];
    let response_items = vec![
        ResponseItem::for_turn(turn_id.clone(), ConversationMessage::user("看看文件")),
        ResponseItem::for_turn(
            turn_id.clone(),
            ConversationMessage::assistant(
                Some("我先看一下。".to_string()),
                vec![ToolCall {
                    id: "call_1".to_string(),
                    name: "run_command".to_string(),
                    arguments: r#"{"command":"ls"}"#.to_string(),
                    thought_signature: None,
                }],
            ),
        ),
        ResponseItem::for_turn(
            turn_id,
            ConversationMessage::assistant(Some("看完了。".to_string()), vec![]),
        ),
    ];

    let view = build_thread_view(thread_id, ThreadStatus::Idle, None, events, &response_items);
    let items = &view.turns[0].items;

    assert!(matches!(items[0], ThreadItem::UserMessage { .. }));
    assert_eq!(
        items[1],
        ThreadItem::AssistantMessage {
            event_id: None,
            text: Some("我先看一下。".to_string())
        }
    );
    assert!(matches!(items[2], ThreadItem::ToolInvocation { .. }));
    assert_eq!(
        items[3],
        ThreadItem::AssistantMessage {
            event_id: None,
            text: Some("看完了。".to_string())
        }
    );
}

#[test]
fn thread_view_prefers_response_item_turn_ids_over_sequence_inference() {
    let thread_id = ThreadId::new("thread_with_explicit_turn_ids");
    let turn_a = TurnId::new("turn_a");
    let turn_b = TurnId::new("turn_b");
    let events = vec![
        RuntimeEvent {
            event_id: EventId::new("evt_a1"),
            thread_id: thread_id.clone(),
            turn_id: Some(turn_a.clone()),
            kind: RuntimeEventKind::TurnStarted,
        },
        RuntimeEvent {
            event_id: EventId::new("evt_a2"),
            thread_id: thread_id.clone(),
            turn_id: Some(turn_a.clone()),
            kind: RuntimeEventKind::TurnCompleted,
        },
        RuntimeEvent {
            event_id: EventId::new("evt_b1"),
            thread_id: thread_id.clone(),
            turn_id: Some(turn_b.clone()),
            kind: RuntimeEventKind::TurnStarted,
        },
        RuntimeEvent {
            event_id: EventId::new("evt_b2"),
            thread_id: thread_id.clone(),
            turn_id: Some(turn_b.clone()),
            kind: RuntimeEventKind::TurnCompleted,
        },
    ];
    let response_items = vec![
        ResponseItem::for_turn(turn_a.clone(), ConversationMessage::user("question A")),
        ResponseItem::for_turn(turn_b.clone(), ConversationMessage::user("question B")),
        ResponseItem::for_turn(
            turn_a,
            ConversationMessage::assistant(Some("answer A".to_string()), vec![]),
        ),
        ResponseItem::for_turn(
            turn_b,
            ConversationMessage::assistant(Some("answer B".to_string()), vec![]),
        ),
    ];

    let view = build_thread_view(thread_id, ThreadStatus::Idle, None, events, &response_items);

    assert_eq!(
        view.turns[0].items,
        vec![
            ThreadItem::UserMessage {
                text: "question A".to_string(),
                input: vec![],
            },
            ThreadItem::AssistantMessage {
                event_id: None,
                text: Some("answer A".to_string())
            }
        ]
    );
    assert_eq!(
        view.turns[1].items,
        vec![
            ThreadItem::UserMessage {
                text: "question B".to_string(),
                input: vec![],
            },
            ThreadItem::AssistantMessage {
                event_id: None,
                text: Some("answer B".to_string())
            }
        ]
    );
}
