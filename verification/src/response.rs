use vstd::prelude::*;

verus! {

/// The raw bytes of the request line `GET / HTTP/1.1` followed by a
/// carriage return and a line feed: the only request this service answers
/// with its page.
pub open spec fn get_request_line() -> Seq<u8> {
    seq![
        71u8,
        69u8,
        84u8,
        32u8,
        47u8,
        32u8,
        72u8,
        84u8,
        84u8,
        80u8,
        47u8,
        49u8,
        46u8,
        49u8,
        13u8,
        10u8,
    ]
}

/// Whether the connection's first bytes begin with the request line for a
/// plain `GET` of the root path.
pub open spec fn is_get_root(request: Seq<u8>) -> bool {
    request.len() >= get_request_line().len() && request.subrange(
        0,
        get_request_line().len() as int,
    ) == get_request_line()
}

/// The status line `HTTP/1.1 200 OK`, without its line ending.
pub open spec fn ok_status_prefix() -> Seq<u8> {
    seq![72u8, 84u8, 84u8, 80u8, 47u8, 49u8, 46u8, 49u8, 32u8, 50u8, 48u8, 48u8, 32u8, 79u8, 75u8]
}

/// The status line `HTTP/1.1 404 NOT FOUND`, without its line ending.
pub open spec fn not_found_status_prefix() -> Seq<u8> {
    seq![
        72u8,
        84u8,
        84u8,
        80u8,
        47u8,
        49u8,
        46u8,
        49u8,
        32u8,
        52u8,
        48u8,
        52u8,
        32u8,
        78u8,
        79u8,
        84u8,
        32u8,
        70u8,
        79u8,
        85u8,
        78u8,
        68u8,
    ]
}

/// A carriage return and line feed, twice: the end of the status line and
/// the empty header block.
pub open spec fn header_end() -> Seq<u8> {
    seq![13u8, 10u8, 13u8, 10u8]
}

/// The full success response: status line, empty header block, then the
/// fixed page body the boundary serves (a static buffer, not logic, so it
/// is a parameter here).
pub open spec fn ok_response(page: Seq<u8>) -> Seq<u8> {
    ok_status_prefix() + header_end() + page
}

/// The full failure response: status line, empty header block, then the
/// fixed not-found body the boundary serves.
pub open spec fn not_found_response(page: Seq<u8>) -> Seq<u8> {
    not_found_status_prefix() + header_end() + page
}

/// The response owed to a connection whose first bytes are `request`, given
/// the two fixed page bodies: the success response exactly when the bytes
/// begin with the `GET` request line for the root path, the not-found
/// response otherwise.
pub open spec fn response_spec(request: Seq<u8>, ok_page: Seq<u8>, not_found_page: Seq<u8>) -> Seq<
    u8,
> {
    if is_get_root(request) {
        ok_response(ok_page)
    } else {
        not_found_response(not_found_page)
    }
}

/// Append every byte of `src` to `dst`, in order.
fn push_all(dst: &mut Vec<u8>, src: &[u8])
    ensures
        final(dst)@ == old(dst)@ + src@,
{
    let mut i: usize = 0;
    while i < src.len()
        invariant
            i <= src@.len(),
            dst@ == old(dst)@ + src@.take(i as int),
        decreases src@.len() - i,
    {
        proof {
            assert(src@.take(i + 1int) =~= src@.take(i as int).push(src@[i as int]));
        }
        dst.push(src[i]);
        i = i + 1;
    }
    proof {
        assert(old(dst)@ + src@.take(src@.len() as int) =~= old(dst)@ + src@);
    }
}

/// Decide whether the request bytes begin with the `GET` request line for
/// the root path.
pub fn matches_get_root(request: &[u8]) -> (matched: bool)
    ensures
        matched == is_get_root(request@),
{
    if request.len() < 16 {
        return false;
    }
    let line: [u8; 16] = [
        71u8,
        69u8,
        84u8,
        32u8,
        47u8,
        32u8,
        72u8,
        84u8,
        84u8,
        80u8,
        47u8,
        49u8,
        46u8,
        49u8,
        13u8,
        10u8,
    ];
    proof {
        assert(line@ =~= get_request_line());
    }
    let mut i: usize = 0;
    while i < 16
        invariant
            i <= 16,
            request@.len() >= 16,
            line@ == get_request_line(),
            forall|k: int| 0 <= k < i ==> request@[k] == get_request_line()[k],
        decreases 16 - i,
    {
        if request[i] != line[i] {
            proof {
                assert(request@.subrange(0, 16)[i as int] == request@[i as int]);
                assert(request@.subrange(0, 16) != get_request_line());
            }
            return false;
        }
        i = i + 1;
    }
    proof {
        assert(request@.subrange(0, 16) =~= get_request_line());
    }
    true
}

/// Build the raw response bytes owed to a connection whose first bytes are
/// `request`: the given success page, framed under the `200 OK` status
/// line, for the `GET` request line of the root path; the given not-found
/// page, framed under the `404 NOT FOUND` status line, for anything else.
/// The two page bodies are the boundary's static buffers, handed in by the
/// caller.
pub fn response_for(request: &[u8], ok_page: &[u8], not_found_page: &[u8]) -> (response: Vec<u8>)
    ensures
        response@ == response_spec(request@, ok_page@, not_found_page@),
{
    let mut response: Vec<u8> = Vec::new();
    let header_tail: [u8; 4] = [13u8, 10u8, 13u8, 10u8];
    proof {
        assert(header_tail@ =~= header_end());
    }
    if matches_get_root(request) {
        let status: [u8; 15] = [
            72u8,
            84u8,
            84u8,
            80u8,
            47u8,
            49u8,
            46u8,
            49u8,
            32u8,
            50u8,
            48u8,
            48u8,
            32u8,
            79u8,
            75u8,
        ];
        proof {
            assert(status@ =~= ok_status_prefix());
        }
        push_all(&mut response, status.as_slice());
        push_all(&mut response, header_tail.as_slice());
        push_all(&mut response, ok_page);
        proof {
            assert(response@ =~= ok_response(ok_page@));
        }
    } else {
        let status: [u8; 22] = [
            72u8,
            84u8,
            84u8,
            80u8,
            47u8,
            49u8,
            46u8,
            49u8,
            32u8,
            52u8,
            48u8,
            52u8,
            32u8,
            78u8,
            79u8,
            84u8,
            32u8,
            70u8,
            79u8,
            85u8,
            78u8,
            68u8,
        ];
        proof {
            assert(status@ =~= not_found_status_prefix());
        }
        push_all(&mut response, status.as_slice());
        push_all(&mut response, header_tail.as_slice());
        push_all(&mut response, not_found_page);
        proof {
            assert(response@ =~= not_found_response(not_found_page@));
        }
    }
    response
}

/// The only externally observable behaviour of the service: whatever page
/// bodies the boundary serves, the response begins with `HTTP/1.1 200 OK`
/// exactly when the connection's first bytes begin with the `GET` request
/// line for the root path, and with `HTTP/1.1 404 NOT FOUND` on any other
/// first bytes.
pub proof fn lemma_response_status(request: Seq<u8>, ok_page: Seq<u8>, not_found_page: Seq<u8>)
    ensures
        is_get_root(request) ==> response_spec(request, ok_page, not_found_page).subrange(0, 15)
            == ok_status_prefix(),
        !is_get_root(request) ==> response_spec(request, ok_page, not_found_page).subrange(0, 22)
            == not_found_status_prefix(),
{
    if is_get_root(request) {
        assert(response_spec(request, ok_page, not_found_page).subrange(0, 15)
            =~= ok_status_prefix());
    } else {
        assert(response_spec(request, ok_page, not_found_page).subrange(0, 22)
            =~= not_found_status_prefix());
    }
}

} // verus!
