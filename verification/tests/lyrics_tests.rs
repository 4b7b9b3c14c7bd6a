use opal_player::lyrics::{parse_timestamp, select_lyrics, tags_parsable, Lyrics};

const SONG: &str = "[ti:Song Title]\n[ar:The Artist]\n[00:12.50]Second line\n[00:05.00][00:20.00]Repeated\n[00:05]Same time later\nplain text line\n[length:03:00\n";

fn chars(s: &str) -> Vec<char> {
    s.chars().collect()
}

#[test]
fn parse_reads_tags() {
    let l = Lyrics::parse(SONG);
    assert_eq!(l.title.as_deref(), Some("Song Title"));
    assert_eq!(l.artist.as_deref(), Some("The Artist"));
}

#[test]
fn parse_orders_lines_by_time_stably() {
    let l = Lyrics::parse(SONG);
    let got: Vec<(i128, &str)> = l.lines.iter().map(|x| (x.timestamp_ms, x.text.as_str())).collect();
    assert_eq!(
        got,
        vec![
            (5000, "Repeated"),
            (5000, "Same time later"),
            (12500, "Second line"),
            (20000, "Repeated"),
        ]
    );
}

#[test]
fn parse_skips_untimed_and_unclosed_tags() {
    let l = Lyrics::parse("just words\n[offset:100\n\n");
    assert!(l.lines.is_empty());
    assert!(l.title.is_none());
}

#[test]
fn parse_handles_crlf_and_blank_lines() {
    let l = Lyrics::parse("[00:01.00] a \r\n\r\n[00:02.00]b\r\n");
    let got: Vec<(i128, &str)> = l.lines.iter().map(|x| (x.timestamp_ms, x.text.as_str())).collect();
    assert_eq!(got, vec![(1000, "a"), (2000, "b")]);
}

#[test]
fn timestamp_formats() {
    assert_eq!(parse_timestamp(&chars("01:02.5")), Some(62500));
    assert_eq!(parse_timestamp(&chars("1:2")), Some(62000));
    assert_eq!(parse_timestamp(&chars("00:00.25")), Some(250));
    assert_eq!(parse_timestamp(&chars("ab:cd")), None);
    assert_eq!(parse_timestamp(&chars("1:2:3")), None);
    assert_eq!(parse_timestamp(&chars("12")), None);
}

#[test]
fn current_line_follows_position() {
    let l = Lyrics::parse(SONG);
    assert_eq!(l.current_line_index(0), Some(0));
    assert_eq!(l.current_line_index(6000), Some(1));
    assert_eq!(l.current_line_index(13000), Some(2));
    assert_eq!(l.current_line_index(99999), Some(3));
    let empty = Lyrics::parse("");
    assert_eq!(empty.current_line_index(1000), None);
}

#[test]
fn window_around_current_line() {
    let l = Lyrics::parse(SONG);
    let w = l.window(13000, 1);
    let texts: Vec<&str> = w.iter().map(|x| x.text.as_str()).collect();
    assert_eq!(texts, vec!["Same time later", "Second line", "Repeated"]);
    let w0 = l.window(0, 5);
    assert_eq!(w0.len(), 4);
    let empty = Lyrics::parse("");
    assert!(empty.window(0, 5).is_empty());
}

#[test]
fn lyrics_file_choice() {
    let lrc = Some(Some("[00:01]x".to_string()));
    let chosen = select_lyrics(lrc, None).expect("lrc lyrics");
    assert_eq!(chosen.lines.len(), 1);
    assert!(select_lyrics(Some(None), Some(Some("[00:01]y".to_string()))).is_none());
    assert!(select_lyrics(None, Some(Some("no stamps here".to_string()))).is_none());
    let txt = select_lyrics(None, Some(Some("[00:03]from txt".to_string()))).expect("txt lyrics");
    assert_eq!(txt.lines[0].text, "from txt");
    assert!(select_lyrics(None, None).is_none());
}

#[test]
fn tag_lines_that_cannot_be_cut() {
    assert!(tags_parsable(SONG));
    assert!(tags_parsable("[ti:]"));
    assert!(!tags_parsable("[ti:"));
    assert!(!tags_parsable("[ar:Bjö"));
    assert!(tags_parsable("[ar:Björk]"));
}

#[test]
fn timestamps_in_the_float_grammar() {
    assert_eq!(parse_timestamp(&chars("0:1e1")), Some(10_000));
    assert_eq!(parse_timestamp(&chars("0:1.5E-1")), Some(150));
    assert_eq!(parse_timestamp(&chars("+1:-0.5")), Some(59_500));
    assert_eq!(parse_timestamp(&chars("0:.5e+1")), Some(5_000));
    assert_eq!(parse_timestamp(&chars("0:1e-999999999999999999999999999")), Some(0));
    assert_eq!(parse_timestamp(&chars("0:inf")), Some(u64::MAX as i128));
    assert_eq!(parse_timestamp(&chars("0:-Infinity")), Some(-(u64::MAX as i128)));
    assert_eq!(parse_timestamp(&chars("99999999999999:00")), Some(5_999_999_999_999_940_000));
    assert_eq!(parse_timestamp(&chars("0:1e999999999999999999999")), Some(u64::MAX as i128));
    assert_eq!(parse_timestamp(&chars("1e20:0")), Some(u64::MAX as i128 * 60));
    assert_eq!(parse_timestamp(&chars("0:18446744073709551.615")), Some(u64::MAX as i128));
    assert_eq!(parse_timestamp(&chars("0:18446744073709551.614999")), Some(u64::MAX as i128 - 1));
    assert_eq!(parse_timestamp(&chars("0:0e999999999999999999999")), Some(0));
    assert_eq!(parse_timestamp(&chars("0:nan")), None);
    assert_eq!(parse_timestamp(&chars("0:1e")), None);
    assert_eq!(parse_timestamp(&chars("0:e1")), None);
    assert_eq!(parse_timestamp(&chars("0:.")), None);
    let l = Lyrics::parse("[0:1e1]Ten\n[0:5]Five\n");
    assert_eq!(l.lines.len(), 2);
    assert_eq!(l.lines[0].text, "Five");
    assert_eq!(l.lines[1].timestamp_ms, 10_000);
}
