use cute_core::action::atomic_stream;
use cute_core::action::cache_unary::{Mapper, MapperObject};
use cute_core::action::multi_stream;
use cute_core::action::{CuteProcType, CuteStream};
use cute_core::bytes::{copy_bytes, same_bytes};
use cute_core::{CuteCreator, CuteError, CuteMap, CuteProc};

/// Counts successful calls; refuses the payload `fail` in `open`, and fails
/// `call` once the count reaches `call_fails_from`.
struct Counter {
    count: u8,
    call_fails_from: u8,
    ready: bool,
}

impl CuteProc for Counter {
    fn open(&mut self, bytes: &[u8]) -> Result<(), String> {
        if bytes == b"fail" {
            Err("bad payload".to_string())
        } else {
            Ok(())
        }
    }

    fn valid_check(&self) -> Result<(), String> {
        if self.ready {
            Ok(())
        } else {
            Err("not ready".to_string())
        }
    }

    fn call(&mut self) -> Result<Vec<u8>, String> {
        if self.count >= self.call_fails_from {
            return Err("call failed".to_string());
        }
        self.count += 1;
        Ok(vec![self.count])
    }
}

struct Make {
    call_fails_from: u8,
    ready: bool,
}

impl CuteCreator<Counter> for Make {
    fn create(&self) -> Counter {
        Counter { count: 0, call_fails_from: self.call_fails_from, ready: self.ready }
    }
}

fn good() -> Make {
    Make { call_fails_from: u8::MAX, ready: true }
}

fn counter() -> Counter {
    good().create()
}

fn live_next(map: &CuteMap<Counter, Make>, s: &mut CuteStream<Counter>) -> Option<Result<Vec<u8>, CuteError>> {
    let live = map.stream_is_live(s);
    s.next_item(live)
}

#[test]
fn register_keeps_first_registration() {
    let mut map: CuteMap<Counter, Make> = CuteMap::new();
    assert!(map.register("n".to_string(), CuteProcType::new_multi_stream("a".to_string(), good())).is_ok());
    assert!(map.register("n".to_string(), CuteProcType::new_atomic_stream("b".to_string(), good())).is_ok());
    assert!(map.register("n".to_string(), CuteProcType::new_cache_unary("c".to_string(), good(), None)).is_ok());
    assert_eq!(map.open_stream("n".to_string(), true, b"x").err(), Some(CuteError::KindMismatch));
    assert!(map.open_stream("n".to_string(), false, b"x").is_ok());
    assert_eq!(map.open_unary_at("n".to_string(), b"x", 0), Err(CuteError::NotFound));
}

#[test]
fn unary_same_payload_is_cached() {
    let mut map: CuteMap<Counter, Make> = CuteMap::new();
    map.register("c".to_string(), CuteProcType::new_cache_unary("c".to_string(), good(), None)).unwrap();
    assert_eq!(map.open_unary_at("c".to_string(), b"p", 0), Ok(vec![1]));
    assert_eq!(map.open_unary_at("c".to_string(), b"p", 10), Ok(vec![1]));
    assert_eq!(map.open_unary_at("c".to_string(), b"q", 20), Ok(vec![2]));
    assert_eq!(map.open_unary_at("c".to_string(), b"q", 30), Ok(vec![2]));
    assert_eq!(map.open_unary_at("c".to_string(), b"p", 40), Ok(vec![3]));
}

#[test]
fn unary_freshness_window() {
    let mut map: CuteMap<Counter, Make> = CuteMap::new();
    map.register("w".to_string(), CuteProcType::new_cache_unary("w".to_string(), good(), Some(100))).unwrap();
    assert_eq!(map.open_unary_at("w".to_string(), b"p", 1000), Ok(vec![1]));
    assert_eq!(map.open_unary_at("w".to_string(), b"q", 1050), Ok(vec![1]));
    assert_eq!(map.open_unary_at("w".to_string(), b"r", 1100), Ok(vec![1]));
    assert_eq!(map.open_unary_at("w".to_string(), b"q", 1101), Ok(vec![2]));
    assert_eq!(map.open_unary_at("w".to_string(), b"s", 1150), Ok(vec![2]));
}

#[test]
fn unary_window_does_not_apply_before_first_success() {
    let mut map: CuteMap<Counter, Make> = CuteMap::new();
    map.register("w".to_string(), CuteProcType::new_cache_unary("w".to_string(), good(), Some(100))).unwrap();
    assert_eq!(map.open_unary_at("w".to_string(), b"p", 0), Ok(vec![1]));
}

#[test]
fn unary_failure_falls_back_to_cache() {
    let mut map: CuteMap<Counter, Make> = CuteMap::new();
    map.register("f".to_string(), CuteProcType::new_cache_unary("f".to_string(), good(), None)).unwrap();
    assert_eq!(map.open_unary_at("f".to_string(), b"p", 0), Ok(vec![1]));
    assert_eq!(map.open_unary_at("f".to_string(), b"fail", 1), Ok(vec![1]));
    assert_eq!(map.open_unary_at("f".to_string(), b"q", 2), Ok(vec![2]));
}

#[test]
fn unary_failure_without_cache_is_an_error() {
    let mut map: CuteMap<Counter, Make> = CuteMap::new();
    map.register("f".to_string(), CuteProcType::new_cache_unary("f".to_string(), good(), None)).unwrap();
    assert_eq!(
        map.open_unary_at("f".to_string(), b"fail", 0),
        Err(CuteError::Processor("bad payload".to_string()))
    );
    assert_eq!(map.open_unary_at("f".to_string(), b"p", 1), Ok(vec![1]));
}

#[test]
fn unary_call_failure_falls_back_to_cache() {
    let mut map: CuteMap<Counter, Make> = CuteMap::new();
    let make = Make { call_fails_from: 1, ready: true };
    map.register("g".to_string(), CuteProcType::new_cache_unary("g".to_string(), make, None)).unwrap();
    assert_eq!(map.open_unary_at("g".to_string(), b"p", 0), Ok(vec![1]));
    assert_eq!(map.open_unary_at("g".to_string(), b"q", 1), Ok(vec![1]));
}

#[test]
fn unary_not_ready_is_an_error() {
    let mut map: CuteMap<Counter, Make> = CuteMap::new();
    let make = Make { call_fails_from: u8::MAX, ready: false };
    map.register("r".to_string(), CuteProcType::new_cache_unary("r".to_string(), make, None)).unwrap();
    assert_eq!(map.open_unary_at("r".to_string(), b"p", 0), Err(CuteError::Processor("not ready".to_string())));
}

#[test]
fn unary_with_clock() {
    let mut map: CuteMap<Counter, Make> = CuteMap::new();
    map.register("c".to_string(), CuteProcType::new_cache_unary("c".to_string(), good(), None)).unwrap();
    assert_eq!(map.open_unary("c".to_string(), b"p"), Ok(vec![1]));
    assert_eq!(map.open_unary("c".to_string(), b"p"), Ok(vec![1]));
    assert_eq!(map.open_unary("c".to_string(), b"q"), Ok(vec![2]));
}

#[test]
fn unary_unknown_name() {
    let mut map: CuteMap<Counter, Make> = CuteMap::new();
    assert_eq!(map.open_unary_at("nope".to_string(), b"p", 0), Err(CuteError::NotFound));
}

#[test]
fn exclusive_stream_closes_previous() {
    let mut map: CuteMap<Counter, Make> = CuteMap::new();
    map.register("a".to_string(), CuteProcType::new_atomic_stream("a".to_string(), good())).unwrap();
    let mut first = map.open_stream("a".to_string(), true, b"x").ok().unwrap();
    assert_eq!(live_next(&map, &mut first), Some(Ok(vec![1])));
    assert_eq!(live_next(&map, &mut first), Some(Ok(vec![2])));
    let mut second = map.open_stream("a".to_string(), true, b"x").ok().unwrap();
    assert_eq!(live_next(&map, &mut first), None);
    assert!(first.is_ended());
    assert_eq!(live_next(&map, &mut second), Some(Ok(vec![1])));
    assert_eq!(live_next(&map, &mut second), Some(Ok(vec![2])));
    assert_eq!(live_next(&map, &mut first), None);
    assert_eq!(first.token().unwrap().id, 0);
    assert_eq!(second.token().unwrap().id, 1);
}

#[test]
fn exclusive_streams_of_other_names_are_untouched() {
    let mut map: CuteMap<Counter, Make> = CuteMap::new();
    map.register("a".to_string(), CuteProcType::new_atomic_stream("a".to_string(), good())).unwrap();
    map.register("b".to_string(), CuteProcType::new_atomic_stream("b".to_string(), good())).unwrap();
    let mut sa = map.open_stream("a".to_string(), true, b"x").ok().unwrap();
    let mut sb = map.open_stream("b".to_string(), true, b"x").ok().unwrap();
    assert_eq!(live_next(&map, &mut sa), Some(Ok(vec![1])));
    assert_eq!(live_next(&map, &mut sb), Some(Ok(vec![1])));
}

#[test]
fn exclusive_stream_open_failure_still_closes_previous() {
    let mut map: CuteMap<Counter, Make> = CuteMap::new();
    map.register("a".to_string(), CuteProcType::new_atomic_stream("a".to_string(), good())).unwrap();
    let mut first = map.open_stream("a".to_string(), true, b"x").ok().unwrap();
    let failed = map.open_stream("a".to_string(), true, b"fail");
    assert_eq!(failed.err(), Some(CuteError::Processor("bad payload".to_string())));
    assert_eq!(live_next(&map, &mut first), None);
}

#[test]
fn stream_call_errors_are_elements() {
    let mut map: CuteMap<Counter, Make> = CuteMap::new();
    let make = Make { call_fails_from: 1, ready: true };
    map.register("m".to_string(), CuteProcType::new_multi_stream("m".to_string(), make)).unwrap();
    let mut s = map.open_stream("m".to_string(), false, b"x").ok().unwrap();
    assert_eq!(live_next(&map, &mut s), Some(Ok(vec![1])));
    assert_eq!(live_next(&map, &mut s), Some(Err(CuteError::Processor("call failed".to_string()))));
    assert_eq!(live_next(&map, &mut s), Some(Err(CuteError::Processor("call failed".to_string()))));
}

#[test]
fn concurrent_streams_are_independent() {
    let mut map: CuteMap<Counter, Make> = CuteMap::new();
    map.register("m".to_string(), CuteProcType::new_multi_stream("m".to_string(), good())).unwrap();
    let mut s1 = map.open_stream("m".to_string(), false, b"x").ok().unwrap();
    let mut s2 = map.open_stream("m".to_string(), false, b"x").ok().unwrap();
    for i in 1..=100u8 {
        assert_eq!(live_next(&map, &mut s1), Some(Ok(vec![i])));
        assert_eq!(live_next(&map, &mut s2), Some(Ok(vec![i])));
    }
    assert!(s1.token().is_none());
    assert!(!s2.is_ended());
}

#[test]
fn stream_kind_mismatch() {
    let mut map: CuteMap<Counter, Make> = CuteMap::new();
    map.register("m".to_string(), CuteProcType::new_multi_stream("m".to_string(), good())).unwrap();
    map.register("a".to_string(), CuteProcType::new_atomic_stream("a".to_string(), good())).unwrap();
    map.register("u".to_string(), CuteProcType::new_cache_unary("u".to_string(), good(), None)).unwrap();
    assert_eq!(map.open_stream("m".to_string(), true, b"x").err(), Some(CuteError::KindMismatch));
    assert_eq!(map.open_stream("a".to_string(), false, b"x").err(), Some(CuteError::KindMismatch));
    assert_eq!(map.open_stream("u".to_string(), true, b"x").err(), Some(CuteError::NotFound));
    assert_eq!(map.open_stream("u".to_string(), false, b"x").err(), Some(CuteError::NotFound));
    assert_eq!(map.open_stream("z".to_string(), false, b"x").err(), Some(CuteError::NotFound));
    assert_eq!(map.open_unary_at("m".to_string(), b"x", 0), Err(CuteError::NotFound));
}

#[test]
fn stream_open_not_ready() {
    let mut map: CuteMap<Counter, Make> = CuteMap::new();
    let make = Make { call_fails_from: u8::MAX, ready: false };
    map.register("m".to_string(), CuteProcType::new_multi_stream("m".to_string(), make)).unwrap();
    assert_eq!(map.open_stream("m".to_string(), false, b"x").err(), Some(CuteError::Processor("not ready".to_string())));
}

#[test]
fn mapper_register_keeps_first_processor() {
    let mut m: Mapper<Counter> = Mapper::new();
    m.register("c".to_string(), counter(), None);
    assert_eq!(m.call(&"c".to_string(), b"p", 0), Ok(vec![1]));
    let mut fresh = counter();
    fresh.count = 50;
    m.register("c".to_string(), fresh, Some(10));
    assert_eq!(m.call(&"c".to_string(), b"q", 1), Ok(vec![2]));
    assert_eq!(m.call(&"x".to_string(), b"q", 1), Err(CuteError::NotFound));
}

#[test]
fn mapper_object_check_and_settle() {
    let mut obj = MapperObject::new(counter(), Some(5));
    assert!(!obj.check(b"p", 0));
    assert_eq!(obj.get_cache(), None);
    assert_eq!(obj.settle(b"p", 10, Err("boom".to_string())), Err(CuteError::Processor("boom".to_string())));
    assert_eq!(obj.settle(b"p", 10, Ok(vec![7, 8])), Ok(vec![7, 8]));
    assert_eq!(obj.get_cache(), Some(vec![7, 8]));
    assert!(obj.check(b"q", 15));
    assert!(!obj.check(b"q", 16));
    assert!(obj.check(b"p", 1000));
    assert_eq!(obj.settle(b"q", 20, Err("boom".to_string())), Ok(vec![7, 8]));
    assert_eq!(obj.call(b"p", 2000), Ok(vec![7, 8]));
    assert_eq!(obj.call(b"q", 2000), Ok(vec![1]));
}

#[test]
fn atomic_mapper_tokens() {
    let mut m = atomic_stream::NoneMapper::new();
    let mut p = counter();
    assert_eq!(m.register(&"a".to_string(), &mut p, b"x"), Ok(()));
    let s1 = m.call(&"a".to_string(), counter());
    assert!(m.is_live(s1.token().unwrap()));
    let mut q = counter();
    assert_eq!(m.register(&"a".to_string(), &mut q, b"fail"), Err(CuteError::Processor("bad payload".to_string())));
    assert!(!m.is_live(s1.token().unwrap()));
    let s2 = m.call(&"a".to_string(), counter());
    assert!(m.is_live(s2.token().unwrap()));
}

#[test]
fn multi_mapper_streams() {
    let mut m = multi_stream::NoneMapper::new();
    let mut p = counter();
    assert_eq!(m.register(&mut p, b"x"), Ok(()));
    assert_eq!(m.register(&mut p, b"fail"), Err(CuteError::Processor("bad payload".to_string())));
    let mut s = m.call(p);
    assert_eq!(s.next_item(true), Some(Ok(vec![1])));
    assert_eq!(s.next_item(false), None);
    assert_eq!(s.next_item(true), None);
}

#[test]
fn proc_type_constructors() {
    match CuteProcType::new_cache_unary("u".to_string(), 3u8, Some(9)) {
        CuteProcType::CacheUnary(n, f, w) => {
            assert_eq!(n, "u");
            assert_eq!(f, 3);
            assert_eq!(w, Some(9));
        },
        _ => panic!("wrong kind"),
    }
    assert!(matches!(CuteProcType::new_atomic_stream("a".to_string(), 1u8), CuteProcType::AtomicStream(_, 1)));
    assert!(matches!(CuteProcType::new_multi_stream("m".to_string(), 2u8), CuteProcType::MultiStream(_, 2)));
}

#[test]
fn byte_helpers() {
    assert!(same_bytes(b"", b""));
    assert!(same_bytes(b"abc", b"abc"));
    assert!(!same_bytes(b"abc", b"abd"));
    assert!(!same_bytes(b"ab", b"abc"));
    assert_eq!(copy_bytes(b"xyz"), b"xyz".to_vec());
    assert_eq!(copy_bytes(b""), Vec::<u8>::new());
}
