use camp_misty::game::game_state::GameState;
use camp_misty::game::killer_ai::KillerAI;
use camp_misty::game::round::RoundResult;
use camp_misty::game::victim_ai::VictimAI;

/// Runs a simulation of the game with AI players.
#[test]
fn simulation() {
    // Number of simulated games to play
    const GAME_COUNT: usize = 10000;

    // Number of wins for each player type (used to compute win to loss ratio)
    let mut victim_wins: usize = 0;
    let mut killer_wins: usize = 0;

    // Play matches
    for _ in 0..GAME_COUNT {
        // Create a game state
        let mut state = GameState::new();
        state.gen_state();

        // Create AI players
        let mut killer = KillerAI::new(&state);
        let mut victim = VictimAI::new(&state);

        // Play game until there is a winner
        loop {
            // Have each AI make a move
            let killer_move = killer.play(&state);
            let victim_move = victim.play(&mut state);

            // Submit moves to the game state
            let res = state
                .play(victim_move, killer_move)
                .expect("Something went wrong during play");

            // Place trap if evaded
            if res.0 == RoundResult::Evaded {
                victim.place_trap(&mut state);
            }
            // Break if someone won
            else if res.0 == RoundResult::Caught {
                killer_wins += 1;
                break;
            } else if res.0 == RoundResult::AllPartsFound {
                victim_wins += 1;
                break;
            }
        }
    }

    assert_eq!(victim_wins + killer_wins, GAME_COUNT);

    // Print out win to loss ratio
    println!(
        "V/K win ratio = {}",
        (victim_wins as f32) / (killer_wins as f32)
    );
}
