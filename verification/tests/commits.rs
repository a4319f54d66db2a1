use git_commit_summarizer::commits::{char_is_hex_digit, extract_commits, CommitId};
use regex::Regex;

fn ids(log: &str) -> Vec<String> {
    extract_commits(log).iter().map(|id| id.as_str().to_string()).collect()
}

fn hex(len: usize) -> String {
    "0123456789abcdef".chars().cycle().take(len).collect()
}

#[test]
fn duplicate_mentions_are_kept_in_order() {
    let log = "commit abc1234\nAuthor: A\n\ncommit def5678\n\ncommit abc1234\n";
    assert_eq!(ids(log), vec!["abc1234", "def5678", "abc1234"]);
}

#[test]
fn mention_twice_on_one_line_is_found_twice() {
    assert_eq!(ids("commit abc1234 commit abc1234"), vec!["abc1234", "abc1234"]);
}

#[test]
fn token_of_five_digits_is_the_shortest() {
    assert_eq!(ids("commit abcd\n"), Vec::<String>::new());
    assert_eq!(ids("commit abcde\n"), vec!["abcde"]);
}

#[test]
fn token_of_forty_digits_is_the_longest() {
    let forty = hex(40);
    let forty_one = hex(41);
    assert_eq!(ids(&format!("commit {}\n", forty)), vec![forty.clone()]);
    assert_eq!(ids(&format!("commit {}\n", forty_one)), Vec::<String>::new());
    assert_eq!(ids(&format!("commit {}\n", hex(200))), Vec::<String>::new());
}

#[test]
fn token_ends_at_white_space_or_at_the_end() {
    assert_eq!(ids("commit abc1234"), vec!["abc1234"]);
    assert_eq!(ids("commit abc1234 (HEAD -> main)"), vec!["abc1234"]);
    assert_eq!(ids("commit abc1234\tx"), vec!["abc1234"]);
    assert_eq!(ids("commit abc1234\r\n"), vec!["abc1234"]);
    assert_eq!(ids("commit abc1234\u{2003}x"), vec!["abc1234"]);
}

#[test]
fn token_with_anything_but_digits_is_none() {
    assert_eq!(ids("commit abc1234g\n"), Vec::<String>::new());
    assert_eq!(ids("commit abc1234_\n"), Vec::<String>::new());
    assert_eq!(ids("commit ABC1234\n"), Vec::<String>::new());
    assert_eq!(ids("commit abc1234.\n"), Vec::<String>::new());
    assert_eq!(ids("commit abc1234\u{e9}\n"), Vec::<String>::new());
}

#[test]
fn keyword_needs_its_one_space() {
    assert_eq!(ids("commitabc1234\n"), Vec::<String>::new());
    assert_eq!(ids("commit  abc1234\n"), Vec::<String>::new());
    assert_eq!(ids("commit\tabc1234\n"), Vec::<String>::new());
    assert_eq!(ids("Commit abc1234\n"), Vec::<String>::new());
}

#[test]
fn keyword_may_stand_inside_a_line() {
    assert_eq!(ids("    Revert commit 1a2b3c4d5e now"), vec!["1a2b3c4d5e"]);
    assert_eq!(ids("recommit abc1234"), vec!["abc1234"]);
}

#[test]
fn text_without_mentions_gives_nothing() {
    assert_eq!(ids(""), Vec::<String>::new());
    assert_eq!(ids("commit"), Vec::<String>::new());
    assert_eq!(ids("commit "), Vec::<String>::new());
    assert_eq!(ids("diff --git a/x b/x\n+commit\n"), Vec::<String>::new());
}

#[test]
fn text_beyond_ascii_is_read_by_characters() {
    assert_eq!(ids("\u{1F600} \u{e9}t\u{e9} commit 00ff00ff \u{4e2d}"), vec!["00ff00ff"]);
}

#[test]
fn every_identifier_found_is_one() {
    let log = format!("commit {}\ncommit abc12\ncommit {} commit 12 commit 123456", hex(40), hex(41));
    let found = extract_commits(&log);
    assert_eq!(found.len(), 3);
    for id in found.iter() {
        let n = id.as_str().chars().count();
        assert!(5 <= n && n <= 40);
        assert!(id.as_str().chars().all(char_is_hex_digit));
    }
}

#[test]
fn parse_accepts_only_identifiers() {
    assert_eq!(CommitId::parse("abc12").map(|id| id.as_str().to_string()), Some("abc12".to_string()));
    assert!(CommitId::parse(&hex(40)).is_some());
    assert!(CommitId::parse(&hex(41)).is_none());
    assert!(CommitId::parse("abc1").is_none());
    assert!(CommitId::parse("ABC12").is_none());
    assert!(CommitId::parse("abc12 ").is_none());
    assert!(CommitId::parse("").is_none());
}

#[test]
fn clone_keeps_the_digits() {
    let id = CommitId::parse("0a1b2c3").unwrap();
    assert_eq!(id.clone().as_str(), "0a1b2c3");
}

#[test]
fn hex_digits_are_lower_case() {
    for c in "0123456789abcdef".chars() {
        assert!(char_is_hex_digit(c));
    }
    for c in "ABCDEFgG/:`@ \u{ff11}".chars() {
        assert!(!char_is_hex_digit(c));
    }
}

#[test]
fn log_of_the_tool_is_read_as_a_pattern_reads_it() {
    let pattern = Regex::new(r"commit (\b[0-9a-f]{5,40}\b)").unwrap();
    let log = "commit 3f2a9c1d8e7b6a5f4e3d2c1b0a9f8e7d6c5b4a39 (HEAD -> main, origin/main)\n\
               Merge: 1a2b3c4 5d6e7f8\n\
               Author: A U Thor <author@example.com>\n\
               Date:   Mon Jan 1 00:00:00 2024 +0000\n\
               \n\
               \x20   Revert \"parser\"\n\
               \x20   This reverts commit 0123456789abcdef0123456789abcdef01234567 \n\
               \n\
               commit 0123456789abcdef0123456789abcdef01234567\n\
               Author: A U Thor <author@example.com>\n\
               \n\
               \x20   parser\n\
               commit 9f8e7d6\tshort\n\
               commit 12\n";
    let expected: Vec<String> =
        pattern.captures_iter(log).map(|c| c.get(1).unwrap().as_str().to_string()).collect();
    assert_eq!(expected.len(), 4);
    assert_eq!(ids(log), expected);
}

#[test]
fn generated_texts_are_read_as_a_pattern_reads_them() {
    let pattern = Regex::new(r"commit ([0-9a-f]{5,40})(?:\s|$)").unwrap();
    let pieces = ["commit ", "commit", " ", "\n", "abc12", "f", "0", "deadbeef", "g", ".", "\t", "c", "\u{a0}", "\u{e9}"];
    let mut seed: u64 = 0x2545F4914F6CDD1D;
    for _ in 0..3000 {
        let mut text = String::new();
        seed ^= seed << 13;
        seed ^= seed >> 7;
        seed ^= seed << 17;
        let parts = 1 + (seed % 12) as usize;
        for _ in 0..parts {
            seed ^= seed << 13;
            seed ^= seed >> 7;
            seed ^= seed << 17;
            let piece = pieces[(seed % pieces.len() as u64) as usize];
            let times = if piece.len() == 1 { 1 + (seed >> 32) % 45 } else { 1 + (seed >> 32) % 3 };
            for _ in 0..times {
                text.push_str(piece);
            }
        }
        let expected: Vec<String> =
            pattern.captures_iter(&text).map(|c| c.get(1).unwrap().as_str().to_string()).collect();
        assert_eq!(ids(&text), expected, "text: {:?}", text);
    }
}
