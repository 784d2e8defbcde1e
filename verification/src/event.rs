use vstd::prelude::*;
use crate::random::draw_up_to;

verus! {

/// The kinds of events that can happen during a match.
#[derive(Debug, Clone, Copy, PartialEq, Eq, Structural)]
pub enum EventType {
    Start,
    End,
    VARReview,
    Assist,
    Block,
    Card,
    Corner,
    Freekick,
    Goal,
    Penalty,
    PenaltyWon,
    Save,
    Shot,
    SubOff,
    SubOn,
    Throwin,
}

/// The number of event kinds; a random event is drawn from `0..=EVENT_KINDS - 1`.
pub const EVENT_KINDS: u32 = 16;

/// The position of an event kind in the declaration order, from 0 to 15.
pub open spec fn event_index(e: EventType) -> nat {
    match e {
        EventType::Start => 0,
        EventType::End => 1,
        EventType::VARReview => 2,
        EventType::Assist => 3,
        EventType::Block => 4,
        EventType::Card => 5,
        EventType::Corner => 6,
        EventType::Freekick => 7,
        EventType::Goal => 8,
        EventType::Penalty => 9,
        EventType::PenaltyWon => 10,
        EventType::Save => 11,
        EventType::Shot => 12,
        EventType::SubOff => 13,
        EventType::SubOn => 14,
        EventType::Throwin => 15,
    }
}

/// The event kind drawn for the number `n`: the kind at position `n`, and
/// `End` for any number past the last position.
pub open spec fn event_from_index(n: int) -> EventType {
    if n == 0 {
        EventType::Start
    } else if n == 1 {
        EventType::End
    } else if n == 2 {
        EventType::VARReview
    } else if n == 3 {
        EventType::Assist
    } else if n == 4 {
        EventType::Block
    } else if n == 5 {
        EventType::Card
    } else if n == 6 {
        EventType::Corner
    } else if n == 7 {
        EventType::Freekick
    } else if n == 8 {
        EventType::Goal
    } else if n == 9 {
        EventType::Penalty
    } else if n == 10 {
        EventType::PenaltyWon
    } else if n == 11 {
        EventType::Save
    } else if n == 12 {
        EventType::Shot
    } else if n == 13 {
        EventType::SubOff
    } else if n == 14 {
        EventType::SubOn
    } else if n == 15 {
        EventType::Throwin
    } else {
        EventType::End
    }
}

impl EventType {
    /// Maps a drawn number to its event kind (`End` past the last kind).
    pub fn from_index(n: u32) -> (e: EventType)
        ensures
            e == event_from_index(n as int),
    {
        match n {
            0 => EventType::Start,
            1 => EventType::End,
            2 => EventType::VARReview,
            3 => EventType::Assist,
            4 => EventType::Block,
            5 => EventType::Card,
            6 => EventType::Corner,
            7 => EventType::Freekick,
            8 => EventType::Goal,
            9 => EventType::Penalty,
            10 => EventType::PenaltyWon,
            11 => EventType::Save,
            12 => EventType::Shot,
            13 => EventType::SubOff,
            14 => EventType::SubOn,
            15 => EventType::Throwin,
            _ => EventType::End,
        }
    }
}

/// The text that describes an event kind to the people following the match.
pub open spec fn event_description(e: EventType) -> Seq<char> {
    match e {
        EventType::Start => "Refere-se ao começo do jogo, quando a bola é inicialmente chutada pelo time que tem a posse no pontapé de saída."@,
        EventType::End => "Indica o término do jogo, quando o árbitro encerra a partida após o tempo regulamentar e, se necessário, acréscimos."@,
        EventType::VARReview => "O VAR (Video Assistant Referee) é um sistema de vídeo usado para revisar decisões tomadas pelo árbitro principal. O \"VAR Review\" ocorre quando uma decisão é contestada e a equipe de arbitragem decide revisar o incidente com a ajuda das imagens de vídeo."@,
        EventType::Assist => "Refere-se ao passe dado por um jogador que resulta em um gol marcado por outro jogador de sua equipe."@,
        EventType::Block => "Ocorre quando um jogador impede um chute ou passe do adversário ao posicionar seu corpo para interceptar a bola."@,
        EventType::Card => "Cartões amarelos e vermelhos são usados pelos árbitros para disciplinar os jogadores. Um cartão amarelo é um aviso e um cartão vermelho resulta na expulsão do jogador."@,
        EventType::Corner => "Concede-se um escanteio quando a bola atravessa a linha de fundo após ser tocada por um jogador da equipe defensora."@,
        EventType::Freekick => "Concede-se um tiro livre quando uma falta é cometida por um jogador, e a equipe prejudicada recebe a oportunidade de chutar diretamente ao gol ou avançar com a bola sem interferência da equipe adversária."@,
        EventType::Goal => "O objetivo principal do jogo, quando a bola atravessa completamente a linha do gol da equipe adversária."@,
        EventType::Penalty => "Concede-se um pênalti quando uma falta é cometida dentro da área de penalidade da equipe defensora. O jogador prejudicado recebe a oportunidade de chutar diretamente ao gol a partir da marca do pênalti."@,
        EventType::PenaltyWon => "Indica quando uma equipe recebe um pênalti devido a uma falta cometida pelo time adversário dentro da área de penalidade."@,
        EventType::Save => "Refere-se à intervenção feita pelo goleiro para impedir que a bola entre no gol."@,
        EventType::Shot => "Um chute é uma tentativa de um jogador de enviar a bola em direção ao gol adversário na esperança de marcar um gol."@,
        EventType::SubOff => "Indica quando um jogador é substituído e deixa o campo de jogo."@,
        EventType::SubOn => "Indica quando um jogador substituto entra no campo de jogo para substituir outro jogador que saiu."@,
        EventType::Throwin => "Concede-se um arremesso lateral quando a bola atravessa a linha lateral após ser tocada por um jogador e é reiniciada com um arremesso lateral."@,
    }
}

impl EventType {
    /// The description of this event kind.
    pub fn description(&self) -> (text: String)
        ensures
            text@ == event_description(*self),
    {
        let literal: &str = match self {
            EventType::Start => "Refere-se ao começo do jogo, quando a bola é inicialmente chutada pelo time que tem a posse no pontapé de saída.",
            EventType::End => "Indica o término do jogo, quando o árbitro encerra a partida após o tempo regulamentar e, se necessário, acréscimos.",
            EventType::VARReview => "O VAR (Video Assistant Referee) é um sistema de vídeo usado para revisar decisões tomadas pelo árbitro principal. O \"VAR Review\" ocorre quando uma decisão é contestada e a equipe de arbitragem decide revisar o incidente com a ajuda das imagens de vídeo.",
            EventType::Assist => "Refere-se ao passe dado por um jogador que resulta em um gol marcado por outro jogador de sua equipe.",
            EventType::Block => "Ocorre quando um jogador impede um chute ou passe do adversário ao posicionar seu corpo para interceptar a bola.",
            EventType::Card => "Cartões amarelos e vermelhos são usados pelos árbitros para disciplinar os jogadores. Um cartão amarelo é um aviso e um cartão vermelho resulta na expulsão do jogador.",
            EventType::Corner => "Concede-se um escanteio quando a bola atravessa a linha de fundo após ser tocada por um jogador da equipe defensora.",
            EventType::Freekick => "Concede-se um tiro livre quando uma falta é cometida por um jogador, e a equipe prejudicada recebe a oportunidade de chutar diretamente ao gol ou avançar com a bola sem interferência da equipe adversária.",
            EventType::Goal => "O objetivo principal do jogo, quando a bola atravessa completamente a linha do gol da equipe adversária.",
            EventType::Penalty => "Concede-se um pênalti quando uma falta é cometida dentro da área de penalidade da equipe defensora. O jogador prejudicado recebe a oportunidade de chutar diretamente ao gol a partir da marca do pênalti.",
            EventType::PenaltyWon => "Indica quando uma equipe recebe um pênalti devido a uma falta cometida pelo time adversário dentro da área de penalidade.",
            EventType::Save => "Refere-se à intervenção feita pelo goleiro para impedir que a bola entre no gol.",
            EventType::Shot => "Um chute é uma tentativa de um jogador de enviar a bola em direção ao gol adversário na esperança de marcar um gol.",
            EventType::SubOff => "Indica quando um jogador é substituído e deixa o campo de jogo.",
            EventType::SubOn => "Indica quando um jogador substituto entra no campo de jogo para substituir outro jogador que saiu.",
            EventType::Throwin => "Concede-se um arremesso lateral quando a bola atravessa a linha lateral após ser tocada por um jogador e é reiniciada com um arremesso lateral.",
        };
        String::from_str(literal)
    }

    /// A random event kind: a number drawn from `0..=15` mapped by
    /// `from_index`, so every kind can come out.
    pub fn sample() -> (e: EventType)
        ensures
            exists|n: int| 0 <= n < EVENT_KINDS && e == #[trigger] event_from_index(n),
    {
        let n = draw_up_to(EVENT_KINDS - 1);
        EventType::from_index(n)
    }
}

/// The description of each event kind is its own text: the start of the
/// match, its end, the video review, and so on through the throw-in.
pub proof fn lemma_description_of_each_kind()
    ensures
        event_description(EventType::Start) == "Refere-se ao começo do jogo, quando a bola é inicialmente chutada pelo time que tem a posse no pontapé de saída."@,
        event_description(EventType::End) == "Indica o término do jogo, quando o árbitro encerra a partida após o tempo regulamentar e, se necessário, acréscimos."@,
        event_description(EventType::VARReview) == "O VAR (Video Assistant Referee) é um sistema de vídeo usado para revisar decisões tomadas pelo árbitro principal. O \"VAR Review\" ocorre quando uma decisão é contestada e a equipe de arbitragem decide revisar o incidente com a ajuda das imagens de vídeo."@,
        event_description(EventType::Assist) == "Refere-se ao passe dado por um jogador que resulta em um gol marcado por outro jogador de sua equipe."@,
        event_description(EventType::Block) == "Ocorre quando um jogador impede um chute ou passe do adversário ao posicionar seu corpo para interceptar a bola."@,
        event_description(EventType::Card) == "Cartões amarelos e vermelhos são usados pelos árbitros para disciplinar os jogadores. Um cartão amarelo é um aviso e um cartão vermelho resulta na expulsão do jogador."@,
        event_description(EventType::Corner) == "Concede-se um escanteio quando a bola atravessa a linha de fundo após ser tocada por um jogador da equipe defensora."@,
        event_description(EventType::Freekick) == "Concede-se um tiro livre quando uma falta é cometida por um jogador, e a equipe prejudicada recebe a oportunidade de chutar diretamente ao gol ou avançar com a bola sem interferência da equipe adversária."@,
        event_description(EventType::Goal) == "O objetivo principal do jogo, quando a bola atravessa completamente a linha do gol da equipe adversária."@,
        event_description(EventType::Penalty) == "Concede-se um pênalti quando uma falta é cometida dentro da área de penalidade da equipe defensora. O jogador prejudicado recebe a oportunidade de chutar diretamente ao gol a partir da marca do pênalti."@,
        event_description(EventType::PenaltyWon) == "Indica quando uma equipe recebe um pênalti devido a uma falta cometida pelo time adversário dentro da área de penalidade."@,
        event_description(EventType::Save) == "Refere-se à intervenção feita pelo goleiro para impedir que a bola entre no gol."@,
        event_description(EventType::Shot) == "Um chute é uma tentativa de um jogador de enviar a bola em direção ao gol adversário na esperança de marcar um gol."@,
        event_description(EventType::SubOff) == "Indica quando um jogador é substituído e deixa o campo de jogo."@,
        event_description(EventType::SubOn) == "Indica quando um jogador substituto entra no campo de jogo para substituir outro jogador que saiu."@,
        event_description(EventType::Throwin) == "Concede-se um arremesso lateral quando a bola atravessa a linha lateral após ser tocada por um jogador e é reiniciada com um arremesso lateral."@,
{
}

/// Every event kind is drawn by exactly the number that is its position.
pub proof fn lemma_from_index_of_index(e: EventType)
    ensures
        event_index(e) < EVENT_KINDS,
        event_from_index(event_index(e) as int) == e,
{
}

/// Each number from 0 to 15 draws the kind at that position.
pub proof fn lemma_index_of_from_index(n: int)
    requires
        0 <= n < EVENT_KINDS,
    ensures
        event_index(event_from_index(n)) == n,
{
}

} // verus!
