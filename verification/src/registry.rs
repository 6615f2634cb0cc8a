//! The registry that owns the map from chat to conversation: one
//! conversation per chat at most, explicit begin and end, and the
//! shutdown pass that closes every open settings dialog.
use crate::conversation::Conversation;
use crate::conversation::ConversationModel;
use crate::conversation::DEFAULT_CONVERSATION_LIMIT;
use crate::conversation::DialogEdit;
use crate::conversation::spec_done_edit_for;
use crate::conversation::spec_new_conversation;
use crate::errors::AppError;
use std::collections::HashMap;
use std::collections::hash_map::Entry;
use vstd::prelude::*;

verus! {

broadcast use vstd::std_specs::hash::group_hash_axioms;

/// The map from chat to its one conversation. The existence of an entry
/// is the "conversation active" state; there is no separate flag.
///
/// The registry is the single shared resource of the core: a caller
/// looks a conversation up under exclusive access, mutates it, and
/// releases it. A chat's events are expected one at a time and in
/// order; two mutations of the same conversation racing each other are
/// outside this design.
pub struct Conversations {
    map: HashMap<crate::ChatId, Conversation>,
    /// The active chats; mirrors the map's domain so the cleanup pass
    /// can walk every conversation.
    chats: Vec<crate::ChatId>,
}

impl View for Conversations {
    type V = Map<crate::ChatId, Conversation>;

    closed spec fn view(&self) -> Map<crate::ChatId, Conversation> {
        self.map@
    }
}

/// Whether `e` is the closing edit of some conversation in `m` whose
/// settings dialog was open.
pub open spec fn spec_edit_for_some_chat(
    m: Map<crate::ChatId, Conversation>,
    e: DialogEdit,
) -> bool {
    exists|k: crate::ChatId|
        #[trigger] m.contains_key(k) && (m[k])@.dialog is Some && spec_done_edit_for((m[k])@, e)
}

impl Conversations {
    /// The registry invariant: the chat list mirrors the map's domain
    /// without duplicates, and every conversation is well formed.
    pub closed spec fn wf(self) -> bool {
        &&& self.chats@.no_duplicates()
        &&& forall|k: crate::ChatId| self.map@.contains_key(k) <==> self.chats@.contains(k)
        &&& forall|k: crate::ChatId|
            self.map@.contains_key(k) ==> (#[trigger] self.map@[k]).wf()
    }

    /// An empty registry: no chat has a conversation.
    pub fn new() -> (r: Conversations)
        ensures
            r@ == Map::<crate::ChatId, Conversation>::empty(),
            r.wf(),
    {
        Conversations { map: HashMap::new(), chats: Vec::new() }
    }

    /// Whether `chat` currently has a conversation.
    pub fn contains(&self, chat: crate::ChatId) -> (r: bool)
        ensures
            r == self@.contains_key(chat),
    {
        self.map.contains_key(&chat)
    }

    /// Begins a conversation for `chat`, with the default history bound
    /// and default settings. Fails with `ConversationAlreadyRunning`
    /// when the chat already has one; nothing changes then.
    pub fn start(&mut self, chat: crate::ChatId) -> (r: Result<(), AppError>)
        requires
            old(self).wf(),
        ensures
            final(self).wf(),
            match r {
                Ok(_) => {
                    &&& !old(self)@.contains_key(chat)
                    &&& final(self)@.contains_key(chat)
                    &&& (final(self)@[chat])@ == spec_new_conversation(
                        DEFAULT_CONVERSATION_LIMIT,
                    )
                    &&& forall|k: crate::ChatId|
                        k != chat ==> old(self)@.contains_key(k) == final(self)@.contains_key(k)
                    &&& forall|k: crate::ChatId|
                        k != chat && old(self)@.contains_key(k) ==> old(self)@[k] == final(self)@[k]
                },
                Err(e) => old(self)@.contains_key(chat) && final(self)@ == old(self)@ && (e
                    matches AppError::ConversationAlreadyRunning(c) && c == chat),
            },
    {
        if self.map.contains_key(&chat) {
            Err(AppError::ConversationAlreadyRunning(chat))
        } else {
            self.map.insert(chat, Conversation::new(DEFAULT_CONVERSATION_LIMIT));
            self.chats.push(chat);
            proof {
                let c0 = old(self).chats@;
                let c1 = c0.push(chat);
                assert(self.chats@ == c1);
                assert(!c0.contains(chat));
                assert forall|j: int| 0 <= j < c0.len() implies c0[j] != chat by {
                    if c0[j] == chat {
                        assert(c0.contains(chat));
                    }
                };
                assert forall|a: int, b: int| 0 <= a < b < c1.len() implies c1[a] != c1[b] by {
                    assert(c1[a] == c0[a]);
                    if b == c1.len() - 1 {
                        assert(c1[b] == chat);
                    } else {
                        assert(c1[b] == c0[b]);
                    }
                };
                assert forall|k: crate::ChatId|
                    self.map@.contains_key(k) <==> self.chats@.contains(k) by {
                    if self.map@.contains_key(k) {
                        if k == chat {
                            assert(c1[c1.len() - 1] == k);
                            assert(c1.contains(k));
                        } else {
                            assert(old(self).map@.contains_key(k));
                            assert(c0.contains(k));
                            let j = choose|j: int| 0 <= j < c0.len() && c0[j] == k;
                            assert(c1[j] == k);
                            assert(c1.contains(k));
                        }
                    }
                    if self.chats@.contains(k) {
                        assert(c1.contains(k));
                        let j = choose|j: int| 0 <= j < c1.len() && c1[j] == k;
                        if j < c0.len() {
                            assert(c0[j] == k);
                            assert(c0.contains(k));
                        } else {
                            assert(c1[j] == chat);
                        }
                    }
                };
            }
            Ok(())
        }
    }

    /// Ends `chat`'s conversation and discards its state. The dialog is
    /// deactivated at destruction: when it was open, the returned edit
    /// closes it on the transport. Fails with `NoConversationRunning`
    /// when the chat has none; nothing changes then.
    #[verifier::loop_isolation(false)]
    pub fn end(&mut self, chat: crate::ChatId) -> (r: Result<Option<DialogEdit>, AppError>)
        requires
            old(self).wf(),
        ensures
            final(self).wf(),
            match r {
                Ok(edit) => old(self)@.contains_key(chat) && final(self)@ == old(self)@.remove(
                    chat,
                ) && (match edit {
                    Some(e) => spec_done_edit_for((old(self)@[chat])@, e),
                    None => (old(self)@[chat])@.dialog is None,
                }),
                Err(e) => !old(self)@.contains_key(chat) && final(self)@ == old(self)@ && (e
                    matches AppError::NoConversationRunning(c) && c == chat),
            },
    {
        if !self.map.contains_key(&chat) {
            return Err(AppError::NoConversationRunning(chat));
        }
        let removed = self.map.remove(&chat);
        let edit = match &removed {
            Some(c) => {
                proof {
                    assert(*c == old(self).map@[chat]);
                    assert(c.wf());
                }
                c.deactivate_settings_dialog()
            },
            None => {
                proof {
                    assert(false);
                }
                None
            },
        };
        let ghost chats0 = self.chats@;
        let mut i: usize = 0;
        while i < self.chats.len()
            invariant
                self.chats@ == chats0,
                self.map@ == old(self).map@.remove(chat),
                i <= chats0.len(),
                forall|j: int| 0 <= j < i ==> chats0[j] != chat,
                chats0.contains(chat),
            decreases chats0.len() - i,
        {
            if self.chats[i] == chat {
                self.chats.remove(i);
                proof {
                    let r1 = chats0.remove(i as int);
                    chats0.remove_ensures(i as int);
                    assert(self.chats@ == r1);
                    assert(r1.len() == chats0.len() - 1);
                    assert forall|j: int| 0 <= j < r1.len() implies r1[j] == (if j < i {
                        chats0[j]
                    } else {
                        chats0[j + 1]
                    }) by {
                        if j < i {
                            assert(chats0.remove(i as int)[j] == chats0[j]);
                        } else {
                            assert(chats0.remove(i as int)[j] == chats0[j + 1]);
                        }
                    };
                    assert forall|a: int, b: int| 0 <= a < b < r1.len() implies r1[a]
                        != r1[b] by {
                        if a < i {
                            assert(r1[a] == chats0[a]);
                        } else {
                            assert(r1[a] == chats0[a + 1]);
                        }
                        if b < i {
                            assert(r1[b] == chats0[b]);
                        } else {
                            assert(r1[b] == chats0[b + 1]);
                        }
                    };
                    assert(forall|k: crate::ChatId|
                        self.map@.contains_key(k) <==> self.chats@.contains(k)) by {
                        assert forall|k: crate::ChatId| self.chats@.contains(k) implies
                            self.map@.contains_key(k) by {
                            assert(r1.contains(k));
                            assert(chats0[i as int] == chat);
                            let j = choose|j: int| 0 <= j < r1.len() && r1[j] == k;
                            if j < i {
                                assert(r1[j] == chats0[j]);
                                assert(chats0[j] == k);
                            } else {
                                assert(r1[j] == chats0[j + 1]);
                                assert(chats0[j + 1] == k);
                            }
                            assert(chats0.contains(k));
                            assert(k != chat);
                        };
                        assert forall|k: crate::ChatId| self.map@.contains_key(k) implies
                            self.chats@.contains(k) by {
                            assert(k != chat);
                            assert(old(self).map@.contains_key(k));
                            assert(chats0.contains(k));
                            let j = choose|j: int| 0 <= j < chats0.len() && chats0[j] == k;
                            assert(chats0[i as int] == chat);
                            assert(j != i);
                            if j < i {
                                assert(r1[j] == chats0[j]);
                                assert(r1.contains(k));
                            } else {
                                assert(r1[j - 1] == chats0[j]);
                                assert(r1.contains(k));
                            }
                        };
                    };
                }
                return Ok(edit);
            }
            i += 1;
        }
        proof {
            let j = choose|j: int| 0 <= j < chats0.len() && chats0[j] == chat;
            assert(false);
        }
        Ok(edit)
    }

    /// Exclusive access to `chat`'s conversation, or `None` when the
    /// chat has none. The registry afterwards holds whatever the caller
    /// left behind the reference.
    pub fn get_mut(&mut self, chat: crate::ChatId) -> (r: Option<&mut Conversation>)
        requires
            old(self).wf(),
        ensures
            match r {
                Some(c) => old(self)@.contains_key(chat) && *c == old(self)@[chat] && final(self)@ == old(self)@.insert(chat, *final(c)) && ((*final(c)).wf() ==> final(self).wf()),
                None => !old(self)@.contains_key(chat) && final(self)@ == old(self)@ && final(self).wf(),
            },
    {
        match self.map.entry(chat) {
            Entry::Occupied(occ) => Some(occ.into_mut()),
            Entry::Vacant(_) => None,
        }
    }

    /// The shutdown pass: closes every open settings dialog, leaving
    /// every conversation otherwise untouched, and returns the edits
    /// that show each closing summary.
    #[verifier::loop_isolation(false)]
    #[verifier::rlimit(60)]
    pub fn cleanup(&mut self) -> (edits: Vec<DialogEdit>)
        requires
            old(self).wf(),
        ensures
            final(self).wf(),
            final(self)@.dom() == old(self)@.dom(),
            forall|k: crate::ChatId|
                #[trigger] old(self)@.contains_key(k) ==> (final(self)@[k])@
                    == (ConversationModel { dialog: None, ..(old(self)@[k])@ }),
            forall|k: crate::ChatId|
                #[trigger] old(self)@.contains_key(k) && (old(self)@[k])@.dialog is Some
                    ==> exists|e: int|
                    0 <= e < edits@.len() && spec_done_edit_for(
                        (old(self)@[k])@,
                        #[trigger] edits@[e],
                    ),
            forall|e: int|
                0 <= e < edits@.len() ==> #[trigger] spec_edit_for_some_chat(
                    old(self)@,
                    edits@[e],
                ),
    {
        let ghost map0 = self.map@;
        let ghost chats0 = self.chats@;
        let mut edits: Vec<DialogEdit> = Vec::new();
        let ghost mut owners: Seq<int> = Seq::empty();
        let mut i: usize = 0;
        proof {
            assert forall|j: int| 0 <= j < chats0.len() implies map0.contains_key(
                #[trigger] chats0[j],
            ) by {
                assert(chats0.contains(chats0[j]));
            };
        }
        while i < self.chats.len()
            invariant
                self.chats@ == chats0,
                chats0.no_duplicates(),
                i <= chats0.len(),
                forall|k: crate::ChatId| map0.contains_key(k) <==> chats0.contains(k),
                self.map@.dom() == map0.dom(),
                forall|j: int|
                    0 <= j < i ==> self.map@.contains_key(#[trigger] chats0[j]) && (
                    self.map@[chats0[j]])@ == (ConversationModel {
                        dialog: None,
                        ..(map0[chats0[j]])@
                    }) && self.map@[chats0[j]].wf(),
                forall|j: int|
                    i <= j < chats0.len() ==> self.map@.contains_key(#[trigger] chats0[j])
                        && self.map@[chats0[j]] == map0[chats0[j]],
                forall|j: int|
                    0 <= j < i && (map0[#[trigger] chats0[j]])@.dialog is Some ==> exists|
                        e: int,
                    |
                        0 <= e < edits@.len() && spec_done_edit_for(
                            (map0[chats0[j]])@,
                            #[trigger] edits@[e],
                        ),
                forall|k: crate::ChatId|
                    self.map@.contains_key(k) ==> (#[trigger] self.map@[k]).wf(),
                owners.len() == edits@.len(),
                forall|e: int|
                    #![trigger owners[e]]
                    #![trigger edits@[e]]
                    0 <= e < edits@.len() ==> 0 <= owners[e] < i && (
                    map0[chats0[owners[e]]])@.dialog is Some && spec_done_edit_for(
                        (map0[chats0[owners[e]]])@,
                        edits@[e],
                    ),
            decreases chats0.len() - i,
        {
            let chat = self.chats[i];
            proof {
                assert(chats0[i as int] == chat);
                assert(chats0.contains(chat));
            }
            let ghost map_pre = self.map@;
            match self.map.remove(&chat) {
                Some(mut c) => {
                    proof {
                        assert(c == map_pre[chat]);
                        assert(c == map0[chat]);
                        assert(c.wf());
                    }
                    let edit = c.deactivate_settings_dialog();
                    c.confirm_settings_dialog_closed();
                    self.map.insert(chat, c);
                    proof {
                        assert(self.map@.dom() =~= map0.dom());
                    }
                    proof {
                        assert(forall|j: int|
                            0 <= j < chats0.len() && j != i ==> chats0[j] != chat);
                    }
                    let ghost edits0 = edits@;
                    let ghost owners0 = owners;
                    match edit {
                        Some(e) => {
                            edits.push(e);
                            proof {
                                owners = owners.push(i as int);
                            }
                        },
                        None => {},
                    }
                    proof {
                        assert(forall|e: int|
                            0 <= e < edits0.len() ==> edits@[e] == edits0[e]);
                        assert forall|j: int|
                            0 <= j < i + 1 && (map0[#[trigger] chats0[j]])@.dialog is Some
                            implies exists|e: int|
                            0 <= e < edits@.len() && spec_done_edit_for(
                                (map0[chats0[j]])@,
                                #[trigger] edits@[e],
                            ) by {
                            if j == i {
                                assert(spec_done_edit_for(
                                    (map0[chat])@,
                                    edits@[edits@.len() - 1],
                                ));
                            } else {
                                let e0 = choose|e: int|
                                    0 <= e < edits0.len() && spec_done_edit_for(
                                        (map0[chats0[j]])@,
                                        #[trigger] edits0[e],
                                    );
                                assert(spec_done_edit_for((map0[chats0[j]])@, edits@[e0]));
                            }
                        };
                        assert forall|e: int|
                            #![trigger owners[e]]
                            #![trigger edits@[e]]
                            0 <= e < edits@.len() implies 0 <= owners[e] < i + 1 && (
                            map0[chats0[owners[e]]])@.dialog is Some && spec_done_edit_for(
                            (map0[chats0[owners[e]]])@,
                            edits@[e],
                        ) by {
                            if e < edits0.len() {
                                assert(owners[e] == owners0[e]);
                                assert(edits@[e] == edits0[e]);
                                assert(0 <= owners0[e] < i);
                            } else {
                                assert(owners[e] == i as int);
                                assert((map0[chats0[i as int]])@.dialog is Some
                                    && spec_done_edit_for((map0[chats0[i as int]])@, edits@[e]));
                            }
                        };
                    }
                },
                None => {
                    proof {
                        assert(false);
                    }
                },
            }
            i += 1;
        }
        proof {
            assert forall|k: crate::ChatId| #[trigger] map0.contains_key(k) implies (
            self.map@[k])@ == (ConversationModel { dialog: None, ..(map0[k])@ }) by {
                assert(chats0.contains(k));
                let j = choose|j: int| 0 <= j < chats0.len() && chats0[j] == k;
                assert(self.map@[chats0[j]]@ == (ConversationModel {
                    dialog: None,
                    ..(map0[chats0[j]])@
                }));
            };
            assert forall|k: crate::ChatId|
                #[trigger] map0.contains_key(k) && (map0[k])@.dialog is Some implies exists|
                e: int,
            | 0 <= e < edits@.len() && spec_done_edit_for((map0[k])@, #[trigger] edits@[e]) by {
                assert(chats0.contains(k));
                let j = choose|j: int| 0 <= j < chats0.len() && chats0[j] == k;
            };
            assert(old(self)@ == map0);
            assert forall|e: int|
                0 <= e < edits@.len() implies #[trigger] spec_edit_for_some_chat(
                old(self)@,
                edits@[e],
            ) by {
                let j = owners[e];
                assert(0 <= j < i);
                assert(i >= chats0.len());
                assert(chats0.contains(chats0[j]));
                assert(old(self)@.contains_key(chats0[j]) && (old(self)@[chats0[j]])@.dialog
                    is Some && spec_done_edit_for((old(self)@[chats0[j]])@, edits@[e]));
            };
        }
        edits
    }
}

} // verus!
