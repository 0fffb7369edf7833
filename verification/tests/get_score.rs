use game_score::Score;
use game_score::Stamp;
use game_score::TIMESTAMPS_COUNT;
use game_score::generate_game;
use game_score::get_score;
use rand::Rng;

const HOME_SCORE: i32 = 7;

#[test]
fn get_score_with_offset_more_than_range_would_return_offset_is_out_of_range_error() {
    let game = generate_game();
    let offset: i32 = ((TIMESTAMPS_COUNT * 3) + 1) as i32;
    let score = get_score(game.as_slice(), offset);
    assert_eq!(
        score.err().unwrap().message(),
        format!("Error: offset is out of range : {}", offset)
    );
}

#[test]
fn get_score_with_offset_less_than_range_would_return_offset_is_out_of_range_error() {
    let game = generate_game();
    let offset: i32 = -1;
    let score = get_score(game.as_slice(), offset);
    assert_eq!(
        score.err().unwrap().message(),
        format!("Error: offset is out of range : {}", offset)
    );
}

#[test]
fn get_score_would_return_scores() {
    let mut game = generate_game();
    let mut offsets: Vec<i32> = Vec::with_capacity(HOME_SCORE as usize);
    let mut stamps: Vec<Stamp> = Vec::with_capacity(HOME_SCORE as usize);

    let mut start_range: usize = 1;
    let mut end_range: usize = TIMESTAMPS_COUNT / HOME_SCORE as usize;
    println!("adding random scores to vec");
    for i in 1..HOME_SCORE {
        let offset: i32 = rand::thread_rng().gen_range(start_range..end_range) as i32;
        let home: i32 = i;
        let away: i32 = 0;
        offsets.push(offset.clone());
        let stamp = Stamp {
            offset,
            score: Score { home, away },
        };

        insert_stamp(&mut game, stamp);
        stamps.push(stamp);

        start_range += TIMESTAMPS_COUNT / 7;
        end_range += TIMESTAMPS_COUNT / 7;
    }

    println!("getting scores from vec:");
    let scores: Vec<(i32, i32)> = offsets
        .iter()
        .map(|offset| get_score(&game, offset.clone()).unwrap())
        .collect::<Vec<(i32, i32)>>();

    for (i, score) in scores.into_iter().enumerate() {
        let s = stamps.get(i).unwrap().score;
        println!("score: {:?}", &score);
        assert_eq!(s.home, score.0);
        assert_eq!(s.away, score.1);
    }
}

#[test]
fn get_score_would_return_no_such_timestamp() {
    let mut game = generate_game();
    let offsets: Vec<usize> = [1, 1, 1, 1, 1, 1, 1, 1, 1]
        .iter()
        .map(|o| o * rand::thread_rng().gen_range(0..TIMESTAMPS_COUNT))
        .collect::<Vec<usize>>();
    remove_stamps(&mut game, offsets.as_slice());

    for o in offsets {
        assert_eq!(
            get_score(&game, o as i32).err().unwrap().message(),
            format!("Error: no such timestamp: {}", o)
        )
    }
}

/// Puts a stamp at its place in the sorted sequence, replacing any stamp
/// already recorded at the same offset.
fn insert_stamp(stamps: &mut Vec<Stamp>, stamp: Stamp) {
    let offset: &i32 = &stamp.offset;
    println!("adding stamp to vec, offset: {}", offset);
    let index = stamps.binary_search_by_key(offset, |score| score.offset);

    match index {
        Ok(i) => {
            stamps.remove(i);
            stamps.insert(i, stamp);
            println!("stamp score: {:?}", &stamp.score);
        }
        Err(i) => {
            stamps.insert(i, stamp);
            println!("stamp score: {:?}", &stamp.score);
        }
    };
}

/// Removes the stamps recorded at the given offsets, where present.
fn remove_stamps(stamps: &mut Vec<Stamp>, offsets: &[usize]) {
    for o in offsets {
        let stamp_idx = stamps.binary_search_by_key(o, |score| score.clone().offset as usize);

        match stamp_idx {
            Ok(idx) => {
                stamps.remove(idx);
            }
            Err(_) => {}
        }
    }
}
