use tileview::text::{break_lines, num_fitting_words, Line};

#[test]
fn words_fit_while_the_line_is_within_the_span() {
    assert_eq!(num_fitting_words(100, 5, &[30, 40, 20, 50]), (3, 100));
    assert_eq!(num_fitting_words(99, 5, &[30, 40, 20, 50]), (2, 75));
    assert_eq!(num_fitting_words(74, 5, &[30, 40, 20, 50]), (1, 30));
    assert_eq!(num_fitting_words(1000, 5, &[30, 40, 20, 50]), (4, 155));
    assert_eq!(num_fitting_words(155, 5, &[30, 40, 20, 50]), (4, 155));
    assert_eq!(num_fitting_words(154, 5, &[30, 40, 20, 50]), (3, 100));
    assert_eq!(num_fitting_words(10, 0, &[5, 5, 5]), (2, 10));
}

#[test]
fn no_words_make_an_empty_line() {
    assert_eq!(num_fitting_words(100, 5, &[]), (0, 0));
    assert_eq!(num_fitting_words(0, 0, &[]), (0, 0));
}

#[test]
fn first_word_goes_on_the_line_even_if_too_wide() {
    assert_eq!(num_fitting_words(10, 5, &[30, 5]), (1, 30));
    assert_eq!(num_fitting_words(0, 0, &[1]), (1, 1));
    assert_eq!(num_fitting_words(0, 0, &[0, 0, 0, 1]), (3, 0));
}

#[test]
fn widths_beyond_the_range_do_not_fit() {
    assert_eq!(num_fitting_words(usize::MAX, 1, &[usize::MAX, 0]), (1, usize::MAX));
    assert_eq!(num_fitting_words(usize::MAX, 0, &[usize::MAX, 1]), (1, usize::MAX));
    assert_eq!(num_fitting_words(usize::MAX, 0, &[usize::MAX, 0]), (2, usize::MAX));
    assert_eq!(num_fitting_words(usize::MAX, usize::MAX, &[1, 1]), (1, 1));
}

#[test]
fn words_are_broken_into_lines() {
    let lengths = vec![30, 40, 20, 50, 60, 10];
    assert_eq!(
        break_lines(100, 5, &lengths, 10),
        vec![
            Line { first: 0, words: 3, width: 100 },
            Line { first: 3, words: 1, width: 50 },
            Line { first: 4, words: 2, width: 75 },
        ]
    );
    assert_eq!(
        break_lines(100, 5, &lengths, 2),
        vec![Line { first: 0, words: 3, width: 100 }, Line { first: 3, words: 1, width: 50 }]
    );
    assert_eq!(break_lines(100, 5, &lengths, 0), Vec::new());
    assert_eq!(break_lines(100, 5, &Vec::new(), 3), Vec::new());
    assert_eq!(
        break_lines(1, 5, &lengths, 4),
        vec![
            Line { first: 0, words: 1, width: 30 },
            Line { first: 1, words: 1, width: 40 },
            Line { first: 2, words: 1, width: 20 },
            Line { first: 3, words: 1, width: 50 },
        ]
    );
}

#[test]
fn lines_follow_one_another_and_hold_every_word() {
    let lengths: Vec<usize> = (0..200).map(|i| (i * 37 + 11) % 90).collect();
    for span in [0usize, 50, 120, 400, 100_000] {
        let lines = break_lines(span, 7, &lengths, usize::MAX);
        let mut next = 0;
        for line in lines.iter() {
            assert_eq!(line.first, next);
            assert!(line.words >= 1);
            assert_eq!((line.words, line.width), num_fitting_words(span, 7, &lengths[next..]));
            assert!(line.words == 1 || line.width <= span);
            next += line.words;
        }
        assert_eq!(next, lengths.len());
    }
}
