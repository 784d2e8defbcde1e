use match_events::event::EventType;
use match_events::message::Message;

const ALL: [EventType; 16] = [
    EventType::Start,
    EventType::End,
    EventType::VARReview,
    EventType::Assist,
    EventType::Block,
    EventType::Card,
    EventType::Corner,
    EventType::Freekick,
    EventType::Goal,
    EventType::Penalty,
    EventType::PenaltyWon,
    EventType::Save,
    EventType::Shot,
    EventType::SubOff,
    EventType::SubOn,
    EventType::Throwin,
];

#[test]
fn from_index_follows_declaration_order() {
    for (i, e) in ALL.iter().enumerate() {
        assert_eq!(EventType::from_index(i as u32), *e);
    }
}

#[test]
fn from_index_past_last_kind_is_end() {
    assert_eq!(EventType::from_index(16), EventType::End);
    assert_eq!(EventType::from_index(1000), EventType::End);
    assert_eq!(EventType::from_index(u32::MAX), EventType::End);
}

#[test]
fn index_roundtrip_on_every_kind() {
    for (i, e) in ALL.iter().enumerate() {
        let back = ALL.iter().position(|k| *k == EventType::from_index(i as u32)).unwrap();
        assert_eq!(back, i);
        assert_eq!(ALL[back], *e);
    }
}

#[test]
fn descriptions_match_the_kinds() {
    assert_eq!(
        EventType::Start.description(),
        "Refere-se ao começo do jogo, quando a bola é inicialmente chutada pelo time que tem a posse no pontapé de saída."
    );
    assert_eq!(
        EventType::Goal.description(),
        "O objetivo principal do jogo, quando a bola atravessa completamente a linha do gol da equipe adversária."
    );
    assert_eq!(
        EventType::SubOff.description(),
        "Indica quando um jogador é substituído e deixa o campo de jogo."
    );
    assert!(EventType::VARReview.description().contains("\"VAR Review\""));
}

#[test]
fn descriptions_are_all_different() {
    for i in 0..ALL.len() {
        for j in (i + 1)..ALL.len() {
            assert_ne!(ALL[i].description(), ALL[j].description());
        }
    }
}

#[test]
fn sample_draws_more_than_one_kind() {
    let first = EventType::sample();
    let mut other_seen = false;
    for _ in 0..500 {
        if EventType::sample() != first {
            other_seen = true;
        }
    }
    assert!(other_seen);
}

#[test]
fn stamped_with_a_time() {
    let m = Message::stamped(7, EventType::Corner, Some(1_700_000_000)).unwrap();
    assert_eq!(m, Message { game_id: 7, event_type: EventType::Corner, timestamp: 1_700_000_000 });
}

#[test]
fn stamped_without_a_time() {
    assert_eq!(Message::stamped(7, EventType::Corner, None), None);
}

#[test]
fn fake_message_is_stamped_now() {
    let before = std::time::SystemTime::now()
        .duration_since(std::time::UNIX_EPOCH)
        .unwrap()
        .as_secs();
    let m = Message::fake().expect("the clock is after the epoch");
    let after = std::time::SystemTime::now()
        .duration_since(std::time::UNIX_EPOCH)
        .unwrap()
        .as_secs();
    assert!(before <= m.timestamp && m.timestamp <= after);
}

#[test]
fn fake_messages_differ_in_game() {
    let a = Message::fake().unwrap();
    let b = Message::fake().unwrap();
    let c = Message::fake().unwrap();
    assert!(a.game_id != b.game_id || b.game_id != c.game_id);
}
